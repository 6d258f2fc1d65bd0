use ln_chain_sync::fork::{BlockHeader, ForkStep, ForkWalk};
use ln_chain_sync::poller::{apply_order, TickAction, TickStage, TipTracker};

fn header(hash: &str, previous: &str, height: u32) -> BlockHeader {
    BlockHeader { hash: hash.to_string(), previous_hash: previous.to_string(), height }
}

#[test]
fn first_tip_is_recorded_without_events() {
    let mut t = TipTracker::new();
    assert!(matches!(t.observe("B1".to_string()), TickAction::Recorded));
    assert_eq!(t.tip, "B1");
    assert!(matches!(t.observe("B1".to_string()), TickAction::Unchanged));
    assert_eq!(t.tip, "B1");
}

#[test]
fn moved_tip_asks_for_resolution() {
    let mut t = TipTracker::new();
    t.observe("B1".to_string());
    match t.observe("B2".to_string()) {
        TickAction::Resolve { new_tip, old_tip } => {
            assert_eq!(new_tip, "B2");
            assert_eq!(old_tip, "B1");
        }
        _ => panic!("expected a resolution"),
    }
    assert_eq!(t.tip, "B2");
}

#[test]
fn disconnects_first_then_connects_ascending() {
    let mut walk = ForkWalk::new("C3".to_string(), "T3".to_string());
    walk.feed(Some(header("C3", "C2", 3)));
    walk.feed(Some(header("T3", "T2", 3)));
    walk.feed(Some(header("C2", "X", 2)));
    walk.feed(Some(header("T2", "X", 2)));
    let plan = apply_order(&walk);
    let described: Vec<String> = plan
        .iter()
        .map(|s| match s {
            ForkStep::Disconnect(h) => format!("-{}@{}", h.hash, h.height),
            ForkStep::Connect(h, n) => format!("+{}@{}", h, n),
        })
        .collect();
    assert_eq!(described, vec!["-T3@3", "-T2@2", "+X@1", "+C2@2", "+C3@3"]);
}

#[test]
fn tick_stages_in_order() {
    let mut s = TickStage::Resolve;
    let mut seen = vec![s];
    while s != TickStage::Done {
        s = s.next(true);
        seen.push(s);
    }
    assert_eq!(
        seen,
        vec![
            TickStage::Resolve,
            TickStage::Apply,
            TickStage::RefreshFees,
            TickStage::Notify,
            TickStage::Rebroadcast,
            TickStage::Done
        ]
    );
}

#[test]
fn failed_resolution_ends_the_tick() {
    assert_eq!(TickStage::Resolve.next(false), TickStage::Done);
    assert_eq!(TickStage::Apply.next(false), TickStage::Done);
    assert_eq!(TickStage::RefreshFees.next(false), TickStage::Notify);
}
