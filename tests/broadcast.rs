use ln_chain_sync::broadcast::{PendingBroadcasts, PendingTx};

fn tx(id: &str, raw: &str) -> PendingTx {
    PendingTx { txid: id.to_string(), raw_hex: raw.to_string() }
}

#[test]
fn sweeps_keep_one_entry_per_id() {
    let mut set = PendingBroadcasts::new();
    set.submit(tx("aa", "0100"));
    let mut attempts = 0;
    for _ in 0..5 {
        let batch = set.rebroadcast_all();
        attempts += batch.iter().filter(|t| t.txid == "aa").count();
    }
    assert_eq!(attempts, 5);
    assert_eq!(set.entries.len(), 1);
    assert_eq!(set.entries[0].raw_hex, "0100");
}

#[test]
fn resubmission_replaces_in_place() {
    let mut set = PendingBroadcasts::new();
    set.submit(tx("aa", "01"));
    set.submit(tx("bb", "02"));
    set.submit(tx("aa", "03"));
    let ids: Vec<(String, String)> =
        set.entries.iter().map(|t| (t.txid.clone(), t.raw_hex.clone())).collect();
    assert_eq!(
        ids,
        vec![("aa".to_string(), "03".to_string()), ("bb".to_string(), "02".to_string())]
    );
}

#[test]
fn sweep_of_empty_set_is_empty() {
    let set = PendingBroadcasts::new();
    assert!(set.rebroadcast_all().is_empty());
}

#[test]
fn evict_drops_only_that_id() {
    let mut set = PendingBroadcasts::new();
    set.submit(tx("aa", "01"));
    set.submit(tx("bb", "02"));
    set.submit(tx("cc", "03"));
    assert!(set.evict(&"bb".to_string()));
    assert!(!set.evict(&"bb".to_string()));
    let ids: Vec<String> = set.rebroadcast_all().iter().map(|t| t.txid.clone()).collect();
    assert_eq!(ids, vec!["aa".to_string(), "cc".to_string()]);
}
