use vstd::prelude::*;

verus! {

/// Smallest fee rate (satoshis per 1000 weight units) that `read` ever returns.
pub const MIN_RELAY_FEE: u64 = 253;

/// Satoshis per kilo-vbyte are divided by this to reach satoshis per 1000 weight units.
pub const RATE_DIVISOR: u64 = 250;

/// Fixed safety margin added to every converted estimate.
pub const RATE_MARGIN: u64 = 3;

/// A confirmation-target bucket.
#[derive(Clone, Copy, Debug, PartialEq, Eq, Structural)]
pub enum FeeBucket {
    Background,
    Normal,
    HighPriority,
}

/// Estimation mode passed to the node's `estimatesmartfee` query.
#[derive(Clone, Copy, Debug, PartialEq, Eq, Structural)]
pub enum EstimateMode {
    Conservative,
    Economical,
}

pub open spec fn spec_target_blocks(b: FeeBucket) -> u32 {
    match b {
        FeeBucket::HighPriority => 6,
        FeeBucket::Normal => 18,
        FeeBucket::Background => 144,
    }
}

pub open spec fn spec_estimate_mode(b: FeeBucket) -> EstimateMode {
    match b {
        FeeBucket::HighPriority => EstimateMode::Conservative,
        _ => EstimateMode::Economical,
    }
}

/// Stored value of a bucket after an estimate of `sat_per_kvb` satoshis per kilo-vbyte.
pub open spec fn spec_fee_from_rate(sat_per_kvb: u64) -> int {
    sat_per_kvb as int / RATE_DIVISOR as int + RATE_MARGIN as int
}

/// The fee rate that a bucket holding `stored` reports.
pub open spec fn spec_floored(stored: u64) -> u64 {
    if stored < MIN_RELAY_FEE { MIN_RELAY_FEE } else { stored }
}

/// A bucket after a query that returned `result` (`None`: failed or had no rate).
pub open spec fn spec_after_query(stored: u64, result: Option<u64>) -> u64 {
    match result {
        Some(rate) => spec_fee_from_rate(rate) as u64,
        None => stored,
    }
}

impl FeeBucket {
    /// Confirmation target, in blocks, that this bucket is estimated for.
    pub fn target_blocks(&self) -> (r: u32)
        ensures
            r == spec_target_blocks(*self),
    {
        match self {
            FeeBucket::HighPriority => 6,
            FeeBucket::Normal => 18,
            FeeBucket::Background => 144,
        }
    }

    /// Estimation mode used for this bucket: conservative for the shortest target only.
    pub fn estimate_mode(&self) -> (r: EstimateMode)
        ensures
            r == spec_estimate_mode(*self),
    {
        match self {
            FeeBucket::HighPriority => EstimateMode::Conservative,
            _ => EstimateMode::Economical,
        }
    }
}

impl EstimateMode {
    /// The mode's name as the node's RPC interface spells it.
    pub fn rpc_name(&self) -> (r: &'static str)
        ensures
            *self == EstimateMode::Conservative ==> r@ == "CONSERVATIVE"@,
            *self == EstimateMode::Economical ==> r@ == "ECONOMICAL"@,
    {
        proof {
            reveal_strlit("CONSERVATIVE");
            reveal_strlit("ECONOMICAL");
        }
        match self {
            EstimateMode::Conservative => "CONSERVATIVE",
            EstimateMode::Economical => "ECONOMICAL",
        }
    }
}

/// Converts an estimate in satoshis per kilo-vbyte to the stored unit, margin included.
pub fn fee_from_rate(sat_per_kvb: u64) -> (r: u64)
    ensures
        r == spec_fee_from_rate(sat_per_kvb),
{
    sat_per_kvb / RATE_DIVISOR + RATE_MARGIN
}

/// Three independently updated fee-rate buckets, each starting unestimated (0).
pub struct FeeEstimator {
    pub background: u64,
    pub normal: u64,
    pub high_priority: u64,
}

impl FeeEstimator {
    pub open spec fn stored(&self, b: FeeBucket) -> u64 {
        match b {
            FeeBucket::Background => self.background,
            FeeBucket::Normal => self.normal,
            FeeBucket::HighPriority => self.high_priority,
        }
    }

    /// All buckets unestimated.
    pub fn new() -> (r: FeeEstimator)
        ensures
            r.background == 0,
            r.normal == 0,
            r.high_priority == 0,
    {
        FeeEstimator { background: 0, normal: 0, high_priority: 0 }
    }

    /// The fee rate of a bucket: its stored value, never below the relay floor.
    pub fn read(&self, bucket: FeeBucket) -> (r: u64)
        ensures
            r == spec_floored(self.stored(bucket)),
            r >= MIN_RELAY_FEE,
            r >= self.stored(bucket),
    {
        let stored = match bucket {
            FeeBucket::Background => self.background,
            FeeBucket::Normal => self.normal,
            FeeBucket::HighPriority => self.high_priority,
        };
        if stored < MIN_RELAY_FEE {
            MIN_RELAY_FEE
        } else {
            stored
        }
    }

    /// Records the outcome of one bucket's query; a failed query leaves the bucket as it was.
    pub fn record(&mut self, bucket: FeeBucket, result: Option<u64>)
        ensures
            final(self).stored(bucket) == spec_after_query(old(self).stored(bucket), result),
            forall|o: FeeBucket| o != bucket ==> final(self).stored(o) == old(self).stored(o),
    {
        if let Some(rate) = result {
            let fee = fee_from_rate(rate);
            match bucket {
                FeeBucket::Background => self.background = fee,
                FeeBucket::Normal => self.normal = fee,
                FeeBucket::HighPriority => self.high_priority = fee,
            }
        }
    }

    /// Records the outcomes of one refresh round, each bucket independently of the others.
    pub fn apply_refresh(
        &mut self,
        high_priority: Option<u64>,
        normal: Option<u64>,
        background: Option<u64>,
    )
        ensures
            final(self).high_priority == spec_after_query(old(self).high_priority, high_priority),
            final(self).normal == spec_after_query(old(self).normal, normal),
            final(self).background == spec_after_query(old(self).background, background),
    {
        self.record(FeeBucket::HighPriority, high_priority);
        self.record(FeeBucket::Normal, normal);
        self.record(FeeBucket::Background, background);
    }
}

/// A refresh in which exactly one query failed: that bucket keeps its value, the other
/// two take their new estimates.
pub proof fn lemma_one_failed_query(
    before: FeeEstimator,
    after: FeeEstimator,
    high_priority: Option<u64>,
    normal: Option<u64>,
    background: Option<u64>,
    failed: FeeBucket,
)
    requires
        after.high_priority == spec_after_query(before.high_priority, high_priority),
        after.normal == spec_after_query(before.normal, normal),
        after.background == spec_after_query(before.background, background),
        high_priority is None <==> failed == FeeBucket::HighPriority,
        normal is None <==> failed == FeeBucket::Normal,
        background is None <==> failed == FeeBucket::Background,
    ensures
        after.stored(failed) == before.stored(failed),
        failed != FeeBucket::HighPriority ==> after.high_priority == spec_fee_from_rate(
            high_priority->0,
        ),
        failed != FeeBucket::Normal ==> after.normal == spec_fee_from_rate(normal->0),
        failed != FeeBucket::Background ==> after.background == spec_fee_from_rate(
            background->0,
        ),
{
}

/// Whatever the buckets hold, unrefreshed or not, no read is below the relay floor.
pub proof fn lemma_read_floor(est: FeeEstimator, b: FeeBucket)
    ensures
        spec_floored(est.stored(b)) >= MIN_RELAY_FEE,
{
}

} // verus!
