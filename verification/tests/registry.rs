use hbbs::database::{Database, Peer as Row, StoreError};
use hbbs::net::{IpAddress, SocketAddress};
use hbbs::peer::{
    Health, PeerInfo, PeerMap, Persisted, RegisterPkResult, Registration, RenameAnswer,
    RenameStage, StatsConfig, Stored,
};

/// A store in memory, in place of the database.
struct Store {
    rows: Vec<StoredRow>,
    fail: bool,
}

struct StoredRow {
    guid: Vec<u8>,
    id: String,
    uuid: Vec<u8>,
    pk: Vec<u8>,
    banned: bool,
    previous_ids: Vec<String>,
}

impl Store {
    fn new() -> Store {
        Store { rows: Vec::new(), fail: false }
    }

    fn find(&self, id: &str) -> Option<&StoredRow> {
        self.rows.iter().find(|r| r.id == id)
    }

    fn is_banned(&self, id: &str) -> Result<bool, StoreError> {
        if self.fail {
            return Err(StoreError {});
        }
        Ok(self.find(id).map(|r| r.banned).unwrap_or(false))
    }

    fn lookup(&self, id: &str) -> Stored {
        if self.fail {
            return Stored::Failed;
        }
        match self.find(id) {
            Some(r) => Stored::Found {
                row: Row {
                    guid: r.guid.clone(),
                    id: r.id.clone(),
                    uuid: r.uuid.clone(),
                    pk: r.pk.clone(),
                    user: None,
                    info: String::new(),
                    status: None,
                },
                info: PeerInfo { ip: String::new() },
                banned: self.is_banned(id),
            },
            None => Stored::Missing,
        }
    }
}

fn addr(last: u8, port: u16) -> SocketAddress {
    SocketAddress { ip: IpAddress::V4(0xc0a8_0000 + last as u32), port }
}

/// Registers as the server does: lookup, ban check, memory, store.
fn register(
    pm: &mut PeerMap,
    store: &mut Store,
    id: &str,
    uuid: &[u8],
    pk: &[u8],
    now: u64,
) -> RegisterPkResult {
    let stored = if pm.is_in_memory(id) { Stored::Missing } else { store.lookup(id) };
    pm.get_or(id, &stored, now);
    let banned = store.is_banned(id);
    match pm.update_pk(id, addr(1, 1000), uuid, pk, "192.168.0.1", now, &banned) {
        Registration::Reply(result) => result,
        Registration::Insert => {
            let persisted = if store.fail {
                Persisted::Failed
            } else {
                let row = Database::new_peer(id, uuid, pk, "{}");
                store.rows.push(StoredRow {
                    guid: row.guid.clone(),
                    id: row.id.clone(),
                    uuid: row.uuid.clone(),
                    pk: row.pk.clone(),
                    banned: false,
                    previous_ids: Vec::new(),
                });
                Persisted::Inserted(row.guid)
            };
            pm.update_pk_stored(id, &persisted)
        }
        Registration::Update(guid) => {
            let persisted = if store.fail {
                Persisted::Failed
            } else {
                let row = store.rows.iter_mut().find(|r| r.guid == guid).unwrap();
                row.id = id.to_owned();
                row.pk = pk.to_vec();
                Persisted::Updated
            };
            pm.update_pk_stored(id, &persisted)
        }
    }
}

/// Renames as the server does: one answer for each stage until the rename is done.
fn rename(
    pm: &mut PeerMap,
    store: &mut Store,
    old_id: &str,
    new_id: &str,
    uuid: &[u8],
    pk: &[u8],
    now: u64,
) -> RegisterPkResult {
    let mut op = pm.change_id(old_id, new_id, addr(2, 2000), uuid, pk, "192.168.0.2", now);
    loop {
        let answer = match op.stage {
            RenameStage::Done(result) => return result,
            RenameStage::Ban => RenameAnswer::Banned(store.is_banned(old_id)),
            RenameStage::Identity => RenameAnswer::Looked(if pm.is_in_memory(old_id) {
                Stored::Missing
            } else {
                store.lookup(old_id)
            }),
            RenameStage::Availability => RenameAnswer::Available(if store.fail {
                Err(StoreError {})
            } else {
                Ok(store.find(&op.new_id).is_none())
            }),
            RenameStage::Persist => RenameAnswer::Renamed(if store.fail {
                Err(StoreError {})
            } else {
                let row = store.rows.iter_mut().find(|r| r.id == old_id).unwrap();
                row.previous_ids.push(old_id.to_owned());
                row.id = op.new_id.clone();
                Ok(())
            }),
        };
        pm.change_id_answer(&mut op, &answer, now);
    }
}

#[test]
fn scenario_register_rotate_key_rename_and_cooldown() {
    let mut pm = PeerMap::new();
    let mut store = Store::new();
    let u1 = [1u8, 1, 1];
    let k1 = [10u8; 32];
    let k2 = [20u8; 32];

    assert_eq!(register(&mut pm, &mut store, "ABC123", &u1, &k1, 1_000), RegisterPkResult::OK);
    let guid = pm.get_in_memory("ABC123").unwrap().guid.clone();
    assert_eq!(guid.len(), 16);
    assert_eq!(store.find("ABC123").unwrap().guid, guid);

    assert_eq!(register(&mut pm, &mut store, "ABC123", &u1, &k2, 2_000), RegisterPkResult::OK);
    let peer = pm.get_in_memory("ABC123").unwrap();
    assert_eq!(peer.guid, guid);
    assert_eq!(peer.pk, k2.to_vec());
    assert_eq!(store.rows.len(), 1);
    assert_eq!(store.find("ABC123").unwrap().pk, k2.to_vec());

    assert_eq!(
        rename(&mut pm, &mut store, "ABC123", "XYZ987", &u1, &k2, 3_000),
        RegisterPkResult::OK
    );
    assert!(!pm.is_in_memory("ABC123"));
    let moved = pm.get_in_memory("XYZ987").unwrap();
    assert_eq!(moved.pk, k2.to_vec());
    assert_eq!(moved.guid, guid);
    assert_eq!(moved.uuid, u1.to_vec());
    assert_eq!(moved.socket_addr, addr(2, 2000));
    assert_eq!(moved.last_heartbeat, Some(3_000));
    assert!(store.find("XYZ987").unwrap().previous_ids.contains(&"ABC123".to_owned()));

    assert_eq!(
        rename(&mut pm, &mut store, "ABC123", "QRS456", &u1, &k2, 3_000 + 299_999),
        RegisterPkResult::TOO_FREQUENT
    );
}

#[test]
fn registration_is_read_back() {
    let mut pm = PeerMap::new();
    let step = pm.update_pk("PEER01", addr(7, 7), &[9, 9], &[5, 5, 5], "10.0.0.7", 50, &Ok(false));
    assert!(matches!(step, Registration::Insert));
    let peer = pm.get_in_memory("PEER01").unwrap();
    assert_eq!(peer.uuid, vec![9, 9]);
    assert_eq!(peer.pk, vec![5, 5, 5]);
    assert_eq!(peer.socket_addr, addr(7, 7));
    assert_eq!(peer.info.ip, "10.0.0.7");
    assert_eq!(peer.last_reg_time, Some(50));
    assert_eq!(peer.last_heartbeat, Some(50));
    assert!(peer.guid.is_empty());
    assert!(pm.get("PEER01", &Stored::Failed, 60));
    assert_eq!(pm.get_in_memory("PEER01").unwrap().pk, vec![5, 5, 5]);
    assert_eq!(
        pm.update_pk_stored("PEER01", &Persisted::Inserted(vec![3; 16])),
        RegisterPkResult::OK
    );
    assert_eq!(pm.get_in_memory("PEER01").unwrap().guid, vec![3; 16]);
    assert_eq!(pm.get_in_memory("PEER01").unwrap().uuid, vec![9, 9]);
}

#[test]
fn registration_of_known_peer_updates_by_guid() {
    let mut pm = PeerMap::new();
    let _ = pm.update_pk("PEER01", addr(7, 7), &[9], &[5], "a", 50, &Ok(false));
    let _ = pm.update_pk_stored("PEER01", &Persisted::Inserted(vec![4; 16]));
    let step = pm.update_pk("PEER01", addr(8, 8), &[9], &[6], "b", 70, &Ok(false));
    match step {
        Registration::Update(guid) => assert_eq!(guid, vec![4; 16]),
        _ => panic!("an update by guid was due"),
    }
    assert_eq!(pm.update_pk_stored("PEER01", &Persisted::Updated), RegisterPkResult::OK);
    assert_eq!(pm.get_in_memory("PEER01").unwrap().guid, vec![4; 16]);
    assert_eq!(pm.get_in_memory("PEER01").unwrap().pk, vec![6]);
}

#[test]
fn store_failure_on_write_is_a_server_error() {
    let mut pm = PeerMap::new();
    let _ = pm.update_pk("PEER01", addr(7, 7), &[9], &[5], "a", 50, &Ok(false));
    assert_eq!(pm.update_pk_stored("PEER01", &Persisted::Failed), RegisterPkResult::SERVER_ERROR);
    assert!(pm.get_in_memory("PEER01").unwrap().guid.is_empty());
}

#[test]
fn banned_id_is_rejected_and_leaves_memory() {
    let mut pm = PeerMap::new();
    let _ = pm.update_pk("BANNED", addr(1, 1), &[1], &[2], "a", 10, &Ok(false));
    assert!(pm.is_in_memory("BANNED"));
    let step = pm.update_pk("BANNED", addr(1, 1), &[1], &[2], "a", 20, &Ok(true));
    assert!(matches!(step, Registration::Reply(RegisterPkResult::UUID_MISMATCH)));
    assert!(!pm.is_in_memory("BANNED"));
    let step = pm.update_pk("NEVER1", addr(1, 1), &[1], &[2], "a", 20, &Ok(true));
    assert!(matches!(step, Registration::Reply(RegisterPkResult::UUID_MISMATCH)));
    assert!(!pm.is_in_memory("NEVER1"));
}

#[test]
fn failed_ban_check_lets_registration_pass() {
    let mut pm = PeerMap::new();
    let step = pm.update_pk("PEER01", addr(1, 1), &[1], &[2], "a", 10, &Err(StoreError {}));
    assert!(matches!(step, Registration::Insert));
    assert!(pm.is_in_memory("PEER01"));
}

#[test]
fn lookup_loads_from_store_unless_banned() {
    let row = || Row {
        guid: vec![7; 16],
        id: "STORED".to_owned(),
        uuid: vec![1, 2],
        pk: vec![3, 4],
        user: None,
        info: "{\"ip\":\"1.2.3.4\"}".to_owned(),
        status: Some(1),
    };
    let info = || PeerInfo { ip: "1.2.3.4".to_owned() };
    let mut pm = PeerMap::new();
    assert!(!pm.get("STORED", &Stored::Missing, 5));
    assert!(!pm.get("STORED", &Stored::Failed, 5));
    assert!(!pm.get("STORED", &Stored::Found { row: row(), info: info(), banned: Ok(true) }, 5));
    assert!(!pm.is_in_memory("STORED"));
    assert!(pm.get("STORED", &Stored::Found { row: row(), info: info(), banned: Ok(false) }, 5));
    let peer = pm.get_in_memory("STORED").unwrap();
    assert_eq!(peer.guid, vec![7; 16]);
    assert_eq!(peer.uuid, vec![1, 2]);
    assert_eq!(peer.pk, vec![3, 4]);
    assert_eq!(peer.info.ip, "1.2.3.4");
    assert_eq!(peer.last_heartbeat, Some(5));
    assert_eq!(peer.last_reg_time, None);
    assert_eq!(peer.socket_addr, SocketAddress::unspecified());

    let mut other = PeerMap::new();
    let failed_check = Stored::Found { row: row(), info: info(), banned: Err(StoreError {}) };
    assert!(other.get("STORED", &failed_check, 5));
}

#[test]
fn get_or_leaves_an_expired_placeholder() {
    let mut pm = PeerMap::new();
    pm.get_or("GHOST1", &Stored::Missing, 1_000_000);
    let peer = pm.get_in_memory("GHOST1").unwrap();
    assert!(peer.guid.is_empty() && peer.uuid.is_empty() && peer.pk.is_empty());
    assert_eq!(peer.last_heartbeat, None);
    assert_eq!(peer.last_reg_time, None);
    let sweep = pm.check_online_peers(1_000_000, 15);
    assert_eq!(sweep.offline, vec!["GHOST1".to_owned()]);
    assert!(!pm.is_in_memory("GHOST1"));
}

#[test]
fn rename_is_rejected_for_a_foreign_uuid() {
    let mut pm = PeerMap::new();
    let mut store = Store::new();
    assert_eq!(register(&mut pm, &mut store, "ABC123", &[1], &[2], 0), RegisterPkResult::OK);
    assert_eq!(
        rename(&mut pm, &mut store, "ABC123", "XYZ987", &[9], &[2], 10),
        RegisterPkResult::UUID_MISMATCH
    );
    assert!(pm.is_in_memory("ABC123"));
    assert!(!pm.is_in_memory("XYZ987"));
    assert_eq!(
        rename(&mut pm, &mut store, "NOBODY", "XYZ987", &[1], &[2], 10),
        RegisterPkResult::UUID_MISMATCH
    );
}

#[test]
fn rename_is_rejected_for_a_taken_id() {
    let mut pm = PeerMap::new();
    let mut store = Store::new();
    assert_eq!(register(&mut pm, &mut store, "ABC123", &[1], &[2], 0), RegisterPkResult::OK);
    assert_eq!(register(&mut pm, &mut store, "TAKEN1", &[3], &[4], 0), RegisterPkResult::OK);
    assert_eq!(
        rename(&mut pm, &mut store, "ABC123", "TAKEN1", &[1], &[2], 10),
        RegisterPkResult::UUID_MISMATCH
    );
    // free in the store, taken in memory only
    pm.get_or("MEMORY", &Stored::Missing, 10);
    assert_eq!(
        rename(&mut pm, &mut store, "ABC123", "MEMORY", &[1], &[2], 10),
        RegisterPkResult::UUID_MISMATCH
    );
    assert!(pm.is_in_memory("ABC123"));
}

#[test]
fn rename_is_accepted_after_the_cooldown() {
    let mut pm = PeerMap::new();
    let mut store = Store::new();
    assert_eq!(register(&mut pm, &mut store, "ABC123", &[1], &[2], 0), RegisterPkResult::OK);
    assert_eq!(rename(&mut pm, &mut store, "ABC123", "SECOND", &[1], &[2], 1_000), RegisterPkResult::OK);
    assert_eq!(
        rename(&mut pm, &mut store, "SECOND", "THIRD1", &[1], &[2], 300_999),
        RegisterPkResult::TOO_FREQUENT
    );
    assert_eq!(
        rename(&mut pm, &mut store, "SECOND", "THIRD1", &[1], &[2], 301_000),
        RegisterPkResult::OK
    );
    assert!(pm.is_in_memory("THIRD1"));
    // the first id is past its cooldown too, and is no longer known
    assert_eq!(
        rename(&mut pm, &mut store, "ABC123", "FOURTH", &[1], &[2], 301_000),
        RegisterPkResult::UUID_MISMATCH
    );
}

#[test]
fn rename_checks_the_form_of_the_new_id_first() {
    let pm = PeerMap::new();
    for bad in ["SHORT", "WAY-TOO-LONG-FOR-AN-ID", "BAD ID!", "SLASH/1"] {
        let op = pm.change_id("ABC123", bad, addr(1, 1), &[1], &[2], "a", 0);
        assert_eq!(op.stage, RenameStage::Done(RegisterPkResult::UUID_MISMATCH));
    }
    let op = pm.change_id("ABC123", "new-id_9", addr(1, 1), &[1], &[2], "a", 0);
    assert_eq!(op.stage, RenameStage::Ban);
    assert_eq!(op.new_id, "NEW-ID_9");
    assert_eq!(op.old_id, "ABC123");
}

#[test]
fn rename_of_a_banned_id_is_rejected_and_store_errors_are_server_errors() {
    let mut pm = PeerMap::new();
    let mut store = Store::new();
    assert_eq!(register(&mut pm, &mut store, "ABC123", &[1], &[2], 0), RegisterPkResult::OK);
    store.rows[0].banned = true;
    assert_eq!(
        rename(&mut pm, &mut store, "ABC123", "XYZ987", &[1], &[2], 10),
        RegisterPkResult::UUID_MISMATCH
    );
    store.rows[0].banned = false;
    store.fail = true;
    // the ban check fails open, the lookup hits memory, the availability check fails
    assert_eq!(
        rename(&mut pm, &mut store, "ABC123", "XYZ987", &[1], &[2], 10),
        RegisterPkResult::SERVER_ERROR
    );
    assert!(pm.is_in_memory("ABC123"));

    let mut op = pm.change_id("ABC123", "XYZ987", addr(1, 1), &[1], &[2], "a", 10);
    pm.change_id_answer(&mut op, &RenameAnswer::Banned(Ok(false)), 10);
    pm.change_id_answer(&mut op, &RenameAnswer::Looked(Stored::Missing), 10);
    pm.change_id_answer(&mut op, &RenameAnswer::Available(Ok(true)), 10);
    assert_eq!(op.stage, RenameStage::Persist);
    pm.change_id_answer(&mut op, &RenameAnswer::Renamed(Err(StoreError {})), 10);
    assert_eq!(op.stage, RenameStage::Done(RegisterPkResult::SERVER_ERROR));
    assert!(pm.is_in_memory("ABC123"));
    assert!(!pm.is_in_memory("XYZ987"));
}

#[test]
fn an_answer_that_was_not_asked_for_changes_nothing() {
    let mut pm = PeerMap::new();
    let _ = pm.update_pk("ABC123", addr(1, 1), &[1], &[2], "a", 0, &Ok(false));
    let mut op = pm.change_id("ABC123", "XYZ987", addr(1, 1), &[1], &[2], "a", 10);
    pm.change_id_answer(&mut op, &RenameAnswer::Renamed(Ok(())), 10);
    assert_eq!(op.stage, RenameStage::Ban);
    assert!(pm.is_in_memory("ABC123"));
    assert!(!pm.is_in_memory("XYZ987"));
}

#[test]
fn stale_peers_are_swept_and_reloaded_with_their_guid() {
    let mut pm = PeerMap::new();
    let mut store = Store::new();
    assert_eq!(register(&mut pm, &mut store, "OLDONE", &[1], &[2], 0), RegisterPkResult::OK);
    assert_eq!(register(&mut pm, &mut store, "FRESH1", &[3], &[4], 10_000), RegisterPkResult::OK);
    let guid = pm.get_in_memory("OLDONE").unwrap().guid.clone();

    // exactly at the timeout nothing is stale
    let sweep = pm.check_online_peers(15_000, 15);
    assert!(sweep.offline.is_empty());
    assert_eq!(sweep.online.len(), 2);

    let sweep = pm.check_online_peers(15_001, 15);
    assert_eq!(sweep.offline, vec!["OLDONE".to_owned()]);
    assert_eq!(sweep.online, vec!["FRESH1".to_owned()]);
    assert!(!pm.is_in_memory("OLDONE"));
    assert!(pm.is_in_memory("FRESH1"));
    assert!(sweep.needs_fallback(&Err::<(), ()>(())));
    assert!(!sweep.needs_fallback(&Ok::<(), ()>(())));

    assert_eq!(register(&mut pm, &mut store, "OLDONE", &[1], &[2], 20_000), RegisterPkResult::OK);
    assert_eq!(pm.get_in_memory("OLDONE").unwrap().guid, guid);
    assert_eq!(store.rows.len(), 2);
}

#[test]
fn heartbeat_keeps_a_peer_in_memory() {
    let mut pm = PeerMap::new();
    let _ = pm.update_pk("ABC123", addr(1, 1), &[1], &[2], "a", 0, &Ok(false));
    pm.touch_peer("ABC123", 14_000);
    pm.touch_peer("NOBODY", 14_000);
    assert!(!pm.is_in_memory("NOBODY"));
    assert_eq!(pm.get_in_memory("ABC123").unwrap().last_heartbeat, Some(14_000));
    assert_eq!(pm.get_in_memory("ABC123").unwrap().last_reg_time, Some(0));
    let sweep = pm.check_online_peers(20_000, 15);
    assert!(sweep.offline.is_empty());
    assert!(pm.is_in_memory("ABC123"));
}

#[test]
fn peers_are_found_by_address() {
    let mut pm = PeerMap::new();
    let _ = pm.update_pk("FIRST1", addr(1, 1), &[1], &[2], "a", 0, &Ok(false));
    let _ = pm.update_pk("SECOND", addr(2, 2), &[1], &[2], "a", 0, &Ok(false));
    assert_eq!(pm.get_id_by_addr(addr(2, 2)), Some("SECOND".to_owned()));
    assert_eq!(pm.get_id_by_addr(addr(1, 1)), Some("FIRST1".to_owned()));
    assert_eq!(pm.get_id_by_addr(addr(1, 2)), None);
}

#[test]
fn statistics_sort_peers_by_missed_heartbeats() {
    let cfg = StatsConfig::standard();
    assert_eq!(cfg.classify(Some(100_000), 100_000), Health::Healthy);
    assert_eq!(cfg.classify(Some(100_000), 105_999), Health::Healthy); // 5 s: 1 missed
    assert_eq!(cfg.classify(Some(100_000), 106_000), Health::Degraded); // 6 s: 2 missed
    assert_eq!(cfg.classify(Some(100_000), 111_999), Health::Degraded); // 11 s: 3 missed
    assert_eq!(cfg.classify(Some(100_000), 112_000), Health::Critical); // 12 s: 4 missed
    assert_eq!(cfg.classify(Some(100_000), 115_999), Health::Critical); // 15 s
    assert_eq!(cfg.classify(Some(100_000), 116_000), Health::TimedOut); // 16 s
    assert_eq!(cfg.classify(None, 116_000), Health::TimedOut);

    let mut pm = PeerMap::new();
    let _ = pm.update_pk("HEALTHY", addr(1, 1), &[1], &[2], "a", 100_000, &Ok(false));
    let _ = pm.update_pk("DEGRADE", addr(1, 1), &[1], &[2], "a", 94_000, &Ok(false));
    let _ = pm.update_pk("CRITIC1", addr(1, 1), &[1], &[2], "a", 88_000, &Ok(false));
    let _ = pm.update_pk("CRITIC2", addr(1, 1), &[1], &[2], "a", 85_000, &Ok(false));
    let _ = pm.update_pk("TIMEOUT", addr(1, 1), &[1], &[2], "a", 10, &Ok(false));
    let stats = pm.get_stats(100_000, &cfg);
    assert_eq!(stats.total, 5);
    assert_eq!(stats.healthy, 1);
    assert_eq!(stats.degraded, 1);
    assert_eq!(stats.critical, 2);
}

#[test]
fn statistics_limits_come_from_settings() {
    let cfg = StatsConfig::from_settings(Some("30"), None, Some("x"), Some("5"));
    assert_eq!(
        cfg,
        StatsConfig {
            timeout_secs: 30,
            warning_threshold: 2,
            critical_threshold: 4,
            heartbeat_interval: 5
        }
    );
    assert_eq!(hbbs::peer::read_setting(Some("17"), 3), 17);
    assert_eq!(hbbs::peer::read_setting(Some("-1"), 3), 3);
    assert_eq!(hbbs::peer::read_setting(None, 3), 3);
}

#[test]
fn only_a_success_marks_the_id_online() {
    assert!(RegisterPkResult::OK.marks_online());
    for result in [
        RegisterPkResult::UUID_MISMATCH,
        RegisterPkResult::TOO_FREQUENT,
        RegisterPkResult::SERVER_ERROR,
        RegisterPkResult::NOT_EXIST,
    ] {
        assert!(!result.marks_online());
    }
}

#[test]
fn rename_that_starts_with_an_upper_case_id_keeps_it() {
    let pm = PeerMap::new();
    let op = pm.begin_rename("ABC123", "Mixed-1".to_owned(), addr(1, 1), &[1], &[2], "a", 0);
    assert_eq!(op.new_id, "Mixed-1");
    assert_eq!(op.stage, RenameStage::Ban);
    let op = pm.begin_rename("ABC123", "no".to_owned(), addr(1, 1), &[1], &[2], "a", 0);
    assert_eq!(op.stage, RenameStage::Done(RegisterPkResult::UUID_MISMATCH));
}
