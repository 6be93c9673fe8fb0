//! The in-memory peer registry and the identity, ban and rename policy.
//!
//! The registry never talks to the persistent store itself. Every operation
//! that needs the store is cut where the store is asked: a function takes the
//! store's answer as an argument, changes the registry, and says what is to
//! be asked or answered next.

use crate::clock::{elapsed, elapsed_ms, is_older_than, older_than, secs_since, whole_secs_since};
use crate::database;
use crate::database::StoreError;
use crate::ident::{is_valid_id, normalize_id, valid_id};
use crate::idmap::{
    as_map, distinct_ids, distinct_keys, holds_id, holds_key, lemma_entry, lemma_push, slot_of,
    Entry, IdMap,
};
use crate::net::SocketAddress;
use crate::abuse::AbuseTracking;
use crate::text::{bytes_eq, copy_bytes, parse_u64, parsed_u64, uppercase_of};
use vstd::prelude::*;

verus! {

/// Seconds without a heartbeat after which a peer counts as offline.
pub const HEARTBEAT_TIMEOUT_SECS: u64 = 15;

/// Seconds between two sweeps for stale peers.
pub const CLEANUP_INTERVAL_SECS: u64 = 60;

/// Seconds that must pass between two renames of one device.
pub const ID_CHANGE_COOLDOWN_SECS: u64 = 300;

/// The result codes of a registration or rename, as the wire protocol names
/// them.
#[allow(non_camel_case_types)]
#[derive(Clone, Copy, Debug, PartialEq, Eq, Structural)]
pub enum RegisterPkResult {
    OK,
    UUID_MISMATCH,
    TOO_FREQUENT,
    SERVER_ERROR,
    NOT_EXIST,
}

impl RegisterPkResult {
    /// Whether the id of a registration or rename that ended with this result
    /// is then marked online in the store: after `OK` only.
    pub fn marks_online(self) -> (r: bool)
        ensures
            r == (self == RegisterPkResult::OK),
    {
        match self {
            RegisterPkResult::OK => true,
            _ => false,
        }
    }
}

/// What is known of a peer beyond its identity.
#[derive(Debug)]
pub struct PeerInfo {
    /// The address the peer was last seen from, as text.
    pub ip: String,
}

impl Clone for PeerInfo {
    fn clone(&self) -> (r: PeerInfo)
        ensures
            r.ip@ == self.ip@,
    {
        PeerInfo { ip: self.ip.clone() }
    }
}

/// The live state of one peer.
#[derive(Debug)]
pub struct Peer {
    pub socket_addr: SocketAddress,
    pub last_reg_time: Option<u64>,
    /// The store's key for the peer; empty until the store has assigned one.
    pub guid: Vec<u8>,
    pub uuid: Vec<u8>,
    pub pk: Vec<u8>,
    pub info: PeerInfo,
    pub reg_pk: (u32, Option<u64>),
    pub last_heartbeat: Option<u64>,
}

/// A peer as a mathematical value.
pub struct PeerView {
    pub socket_addr: SocketAddress,
    pub last_reg_time: Option<u64>,
    pub guid: Seq<u8>,
    pub uuid: Seq<u8>,
    pub pk: Seq<u8>,
    pub ip: Seq<char>,
    pub reg_pk: (u32, Option<u64>),
    pub last_heartbeat: Option<u64>,
}

impl View for Peer {
    type V = PeerView;

    open spec fn view(&self) -> PeerView {
        PeerView {
            socket_addr: self.socket_addr,
            last_reg_time: self.last_reg_time,
            guid: self.guid@,
            uuid: self.uuid@,
            pk: self.pk@,
            ip: self.info.ip@,
            reg_pk: self.reg_pk,
            last_heartbeat: self.last_heartbeat,
        }
    }
}

impl PeerView {
    /// The entry of a peer of which nothing is known: no identity, no address,
    /// every stamp expired.
    pub open spec fn placeholder() -> PeerView {
        PeerView {
            socket_addr: SocketAddress::unspecified(),
            last_reg_time: None,
            guid: Seq::empty(),
            uuid: Seq::empty(),
            pk: Seq::empty(),
            ip: Seq::empty(),
            reg_pk: (0, None),
            last_heartbeat: None,
        }
    }

    /// The entry after a registration from `addr` at `now`.
    pub open spec fn registered(
        self,
        addr: SocketAddress,
        uuid: Seq<u8>,
        pk: Seq<u8>,
        ip: Seq<char>,
        now: u64,
    ) -> PeerView {
        PeerView {
            socket_addr: addr,
            uuid,
            pk,
            ip,
            last_reg_time: Some(now),
            last_heartbeat: Some(now),
            ..self
        }
    }

    /// The entry after it has moved to a new id from `addr` at `now`. The uuid
    /// and the guid stay.
    pub open spec fn renamed(self, addr: SocketAddress, pk: Seq<u8>, ip: Seq<char>, now: u64) -> PeerView {
        PeerView {
            socket_addr: addr,
            pk,
            ip,
            last_reg_time: Some(now),
            last_heartbeat: Some(now),
            ..self
        }
    }
}

impl Clone for Peer {
    fn clone(&self) -> (r: Peer)
        ensures
            r@ == self@,
    {
        Peer {
            socket_addr: self.socket_addr,
            last_reg_time: self.last_reg_time,
            guid: copy_bytes(self.guid.as_slice()),
            uuid: copy_bytes(self.uuid.as_slice()),
            pk: copy_bytes(self.pk.as_slice()),
            info: self.info.clone(),
            reg_pk: self.reg_pk,
            last_heartbeat: self.last_heartbeat,
        }
    }
}

impl Default for Peer {
    fn default() -> (p: Peer)
        ensures
            p@ == PeerView::placeholder(),
    {
        Peer {
            socket_addr: SocketAddress::unspecified(),
            last_reg_time: None,
            guid: Vec::new(),
            uuid: Vec::new(),
            pk: Vec::new(),
            info: PeerInfo { ip: String::new() },
            reg_pk: (0, None),
            last_heartbeat: None,
        }
    }
}

/// What the store said of an id that the registry does not hold.
pub enum Stored {
    /// The store could not be read.
    Failed,
    /// The store has no row under the id.
    Missing,
    /// The store has `row`, whose info text decodes to `info`; `banned` is what
    /// the ban check on the id said after that.
    Found { row: database::Peer, info: PeerInfo, banned: Result<bool, StoreError> },
}

impl Stored {
    /// Whether the answer puts an entry into the registry: a row was found and
    /// the ban check did not say that it is banned.
    pub open spec fn admitted(self) -> bool {
        self matches Stored::Found { banned, .. } && banned != Ok::<bool, StoreError>(true)
    }

    /// The entry that a found row becomes at `now`.
    pub open spec fn entry(self, now: u64) -> PeerView
        recommends
            self is Found,
    {
        PeerView {
            guid: self->row.guid@,
            uuid: self->row.uuid@,
            pk: self->row.pk@,
            ip: self->info.ip@,
            last_heartbeat: Some(now),
            ..PeerView::placeholder()
        }
    }
}

/// What follows the ban check of a registration.
pub enum Registration {
    /// The registration ends here, with this result.
    Reply(RegisterPkResult),
    /// The peer has no guid yet: the store is asked to insert a row.
    Insert,
    /// The peer has this guid: the store is asked to update its row.
    Update(Vec<u8>),
}

/// What the store said of the write that a registration asked for.
pub enum Persisted {
    /// The row was inserted under this new guid.
    Inserted(Vec<u8>),
    /// The row was updated.
    Updated,
    Failed,
}

/// What a sweep for stale peers found. The caller marks the `online` ids
/// online in the store and the `offline` ids offline.
pub struct Sweep {
    /// The ids that stay in the registry.
    pub online: Vec<String>,
    /// The ids that have left the registry.
    pub offline: Vec<String>,
}

/// The limits by which the statistics sort the peers.
#[derive(Clone, Copy, Debug, PartialEq, Eq, Structural)]
pub struct StatsConfig {
    /// Seconds without a heartbeat after which a peer is not counted.
    pub timeout_secs: u64,
    /// Missed heartbeats from which a peer counts as degraded.
    pub warning_threshold: u64,
    /// Missed heartbeats from which a peer counts as critical.
    pub critical_threshold: u64,
    /// Seconds between two heartbeats.
    pub heartbeat_interval: u64,
}

/// How well a peer keeps up its heartbeats.
#[derive(Clone, Copy, Debug, PartialEq, Eq, Structural)]
pub enum Health {
    Healthy,
    Degraded,
    Critical,
    /// Past the timeout: the peer is in none of the three counts.
    TimedOut,
}

/// Counts of the peers in the registry.
#[derive(Clone, Copy, Debug, PartialEq, Eq, Structural)]
pub struct PeerStats {
    pub total: usize,
    pub healthy: usize,
    pub degraded: usize,
    pub critical: usize,
}

/// The heartbeats that a peer has missed after `secs` whole seconds of
/// silence.
pub open spec fn missed_heartbeats(secs: u64, cfg: StatsConfig) -> int {
    secs as int / cfg.heartbeat_interval as int
}

/// The health of a peer whose last heartbeat came at `last_heartbeat`.
pub open spec fn health_of(last_heartbeat: Option<u64>, now: u64, cfg: StatsConfig) -> Health {
    match whole_secs_since(last_heartbeat, now) {
        None => Health::TimedOut,
        Some(secs) => if secs > cfg.timeout_secs {
            Health::TimedOut
        } else if missed_heartbeats(secs, cfg) >= cfg.critical_threshold {
            Health::Critical
        } else if missed_heartbeats(secs, cfg) >= cfg.warning_threshold {
            Health::Degraded
        } else {
            Health::Healthy
        },
    }
}

/// How many of the entries have the health `health`: the count as the
/// statistics take it, entry by entry.
pub open spec fn count_health(s: Seq<Entry<Peer>>, health: Health, now: u64, cfg: StatsConfig) -> nat
    decreases s.len(),
{
    if s.len() == 0 {
        0
    } else {
        count_health(s.drop_last(), health, now, cfg) + if health_of(
            s.last().value.last_heartbeat,
            now,
            cfg,
        ) == health {
            1nat
        } else {
            0nat
        }
    }
}

/// The number that a setting holds, or `default` where there is no setting
/// or it is no number.
pub open spec fn setting_or(setting: Option<Seq<char>>, default: u64) -> u64 {
    match setting {
        Some(text) => match parsed_u64(text) {
            Some(n) => n,
            None => default,
        },
        None => default,
    }
}

/// The text of a setting, where there is one.
pub open spec fn setting_text(setting: Option<&str>) -> Option<Seq<char>> {
    match setting {
        Some(text) => Some(text@),
        None => None,
    }
}

/// The number that a setting holds, or `default`.
pub fn read_setting(setting: Option<&str>, default: u64) -> (n: u64)
    ensures
        n == setting_or(setting_text(setting), default),
{
    match setting {
        Some(text) => match parse_u64(text) {
            Some(n) => n,
            None => default,
        },
        None => default,
    }
}

impl Sweep {
    /// Whether the ids that went are to be marked offline one by one: where
    /// the transaction for all of them has failed.
    pub fn needs_fallback<E>(&self, batch: &Result<(), E>) -> (r: bool)
        ensures
            r == (self.offline@.len() > 0 && batch is Err),
    {
        self.offline.len() > 0 && batch.is_err()
    }
}

/// The entries with a given health are as many as the ids that the map
/// holds with that health.
pub proof fn lemma_count_health(s: Seq<Entry<Peer>>, health: Health, now: u64, cfg: StatsConfig)
    requires
        distinct_keys(s),
    ensures
        (RegistryView { peers: as_map(s), cooldown: Map::empty() }).with_health(
            health,
            now,
            cfg,
        ).finite(),
        (RegistryView { peers: as_map(s), cooldown: Map::empty() }).with_health(
            health,
            now,
            cfg,
        ).len() == count_health(s, health, now, cfg),
    decreases s.len(),
{
    let all = (RegistryView { peers: as_map(s), cooldown: Map::empty() }).with_health(
        health,
        now,
        cfg,
    );
    if s.len() == 0 {
        assert(all =~= Set::<Seq<char>>::empty());
    } else {
        let head = s.drop_last();
        let e = s.last();
        assert forall|i: int, j: int| 0 <= i < j < head.len() implies (#[trigger] head[i]).key@ != (
        #[trigger] head[j]).key@ by {
            assert(s[i].key@ != s[j].key@);
        }
        if holds_key(head, e.key@) {
            let i = slot_of(head, e.key@);
            assert(s[i].key@ != s[s.len() - 1].key@);
        }
        lemma_count_health(head, health, now, cfg);
        lemma_push(head, e);
        assert(head.push(e) =~= s);
        let before = (RegistryView { peers: as_map(head), cooldown: Map::empty() }).with_health(
            health,
            now,
            cfg,
        );
        if health_of(e.value.last_heartbeat, now, cfg) == health {
            assert(all =~= before.insert(e.key@));
        } else {
            assert(all =~= before);
        }
    }
}

impl StatsConfig {
    /// The limits as they are configured: each setting that is missing or no
    /// number takes its standard value.
    pub fn from_settings(
        timeout_secs: Option<&str>,
        warning_threshold: Option<&str>,
        critical_threshold: Option<&str>,
        heartbeat_interval: Option<&str>,
    ) -> (cfg: StatsConfig)
        ensures
            cfg == (StatsConfig {
                timeout_secs: setting_or(setting_text(timeout_secs), 15),
                warning_threshold: setting_or(setting_text(warning_threshold), 2),
                critical_threshold: setting_or(setting_text(critical_threshold), 4),
                heartbeat_interval: setting_or(setting_text(heartbeat_interval), 3),
            }),
    {
        StatsConfig {
            timeout_secs: read_setting(timeout_secs, 15),
            warning_threshold: read_setting(warning_threshold, 2),
            critical_threshold: read_setting(critical_threshold, 4),
            heartbeat_interval: read_setting(heartbeat_interval, 3),
        }
    }

    /// A timeout of 15 seconds, a heartbeat every 3 seconds, degraded from 2
    /// missed heartbeats and critical from 4.
    pub fn standard() -> (cfg: StatsConfig)
        ensures
            cfg == (StatsConfig {
                timeout_secs: 15,
                warning_threshold: 2,
                critical_threshold: 4,
                heartbeat_interval: 3,
            }),
    {
        StatsConfig {
            timeout_secs: 15,
            warning_threshold: 2,
            critical_threshold: 4,
            heartbeat_interval: 3,
        }
    }

    pub fn classify(&self, last_heartbeat: Option<u64>, now: u64) -> (h: Health)
        requires
            self.heartbeat_interval > 0,
        ensures
            h == health_of(last_heartbeat, now, *self),
    {
        match secs_since(last_heartbeat, now) {
            None => Health::TimedOut,
            Some(secs) => {
                if secs > self.timeout_secs {
                    Health::TimedOut
                } else {
                    let missed: u64 = secs / self.heartbeat_interval;
                    if missed >= self.critical_threshold {
                        Health::Critical
                    } else if missed >= self.warning_threshold {
                        Health::Degraded
                    } else {
                        Health::Healthy
                    }
                }
            },
        }
    }
}

/// Where a rename stands: the answer it waits for, or its result.
#[derive(Clone, Copy, Debug, PartialEq, Eq, Structural)]
pub enum RenameStage {
    /// The store is to say whether the old id is banned.
    Ban,
    /// The old id is to be looked up, in the store where the registry does not
    /// hold it.
    Identity,
    /// The store is to say whether the new id is free.
    Availability,
    /// The store is to rename the row.
    Persist,
    /// The rename has ended with this result.
    Done(RegisterPkResult),
}

/// An answer to what a rename asked for.
pub enum RenameAnswer {
    Banned(Result<bool, StoreError>),
    Looked(Stored),
    Available(Result<bool, StoreError>),
    Renamed(Result<(), StoreError>),
}

/// A rename in flight.
pub struct Rename {
    pub old_id: String,
    /// The new id, in upper case.
    pub new_id: String,
    pub addr: SocketAddress,
    pub uuid: Vec<u8>,
    pub pk: Vec<u8>,
    pub ip: String,
    pub stage: RenameStage,
}

/// A rename as a mathematical value.
pub struct RenameView {
    pub old_id: Seq<char>,
    pub new_id: Seq<char>,
    pub addr: SocketAddress,
    pub uuid: Seq<u8>,
    pub pk: Seq<u8>,
    pub ip: Seq<char>,
    pub stage: RenameStage,
}

impl View for Rename {
    type V = RenameView;

    open spec fn view(&self) -> RenameView {
        RenameView {
            old_id: self.old_id@,
            new_id: self.new_id@,
            addr: self.addr,
            uuid: self.uuid@,
            pk: self.pk@,
            ip: self.ip@,
            stage: self.stage,
        }
    }
}

/// The registry as a mathematical value.
pub struct RegistryView {
    /// The live peers by display id.
    pub peers: Map<Seq<char>, PeerView>,
    /// By display id, the time of the last rename that the id took part in.
    pub cooldown: Map<Seq<char>, u64>,
}

impl RegistryView {
    pub open spec fn holds(self, id: Seq<char>) -> bool {
        self.peers.dom().contains(id)
    }

    /// The entry under `id`, or the placeholder where there is none.
    pub open spec fn peer_or_placeholder(self, id: Seq<char>) -> PeerView {
        if self.holds(id) {
            self.peers[id]
        } else {
            PeerView::placeholder()
        }
    }

    /// The registry after a heartbeat of `id` at `now`.
    pub open spec fn touched(self, id: Seq<char>, now: u64) -> RegistryView {
        if self.holds(id) {
            RegistryView {
                peers: self.peers.insert(
                    id,
                    PeerView { last_heartbeat: Some(now), ..self.peers[id] },
                ),
                ..self
            }
        } else {
            self
        }
    }

    /// The registry after a lookup of `id` that the store answered with
    /// `stored`.
    pub open spec fn after_get(self, id: Seq<char>, stored: Stored, now: u64) -> RegistryView {
        if !self.holds(id) && stored.admitted() {
            RegistryView { peers: self.peers.insert(id, stored.entry(now)), ..self }
        } else {
            self
        }
    }

    /// The registry after a lookup that leaves a placeholder where nothing was
    /// found.
    pub open spec fn after_get_or(self, id: Seq<char>, stored: Stored, now: u64) -> RegistryView {
        let looked = self.after_get(id, stored, now);
        if looked.holds(id) {
            looked
        } else {
            RegistryView { peers: looked.peers.insert(id, PeerView::placeholder()), ..looked }
        }
    }

    /// The registry after the ban check of a registration.
    pub open spec fn after_update_pk(
        self,
        id: Seq<char>,
        addr: SocketAddress,
        uuid: Seq<u8>,
        pk: Seq<u8>,
        ip: Seq<char>,
        now: u64,
        banned: Result<bool, StoreError>,
    ) -> RegistryView {
        if banned == Ok::<bool, StoreError>(true) {
            RegistryView { peers: self.peers.remove(id), ..self }
        } else {
            RegistryView {
                peers: self.peers.insert(
                    id,
                    self.peer_or_placeholder(id).registered(addr, uuid, pk, ip, now),
                ),
                ..self
            }
        }
    }

    /// The ids of the peers that have the health `health` at `now`.
    pub open spec fn with_health(self, health: Health, now: u64, cfg: StatsConfig) -> Set<Seq<char>> {
        Set::new(
            |id: Seq<char>|
                self.holds(id) && health_of(self.peers[id].last_heartbeat, now, cfg) == health,
        )
    }

    /// Whether the registry holds `id` with a last heartbeat more than
    /// `timeout_secs` seconds before `now`.
    pub open spec fn stale(self, id: Seq<char>, now: u64, timeout_secs: u64) -> bool {
        self.holds(id) && older_than(self.peers[id].last_heartbeat, now, timeout_secs)
    }

    /// The registry without its stale peers.
    pub open spec fn swept(self, now: u64, timeout_secs: u64) -> RegistryView {
        RegistryView {
            peers: Map::new(
                |id: Seq<char>| self.holds(id) && !self.stale(id, now, timeout_secs),
                |id: Seq<char>| self.peers[id],
            ),
            ..self
        }
    }

    /// Whether `id` took part in a rename less than the cooldown before `now`.
    pub open spec fn cooling(self, id: Seq<char>, now: u64) -> bool {
        self.cooldown.dom().contains(id) && elapsed_ms(now, self.cooldown[id])
            < ID_CHANGE_COOLDOWN_SECS * 1000
    }

    /// Where a rename of `old_id` to `new_id` starts at `now`: the form of the
    /// new id is tested first, then the cooldown of the old one.
    pub open spec fn rename_start(self, old_id: Seq<char>, new_id: Seq<char>, now: u64) -> RenameStage {
        if !valid_id(new_id) {
            RenameStage::Done(RegisterPkResult::UUID_MISMATCH)
        } else if self.cooling(old_id, now) {
            RenameStage::Done(RegisterPkResult::TOO_FREQUENT)
        } else {
            RenameStage::Ban
        }
    }

    /// The registry after the store has renamed the row of `op` at `now`: the
    /// entry moves to the new id, and both ids start their cooldown.
    pub open spec fn after_rename(self, op: RenameView, now: u64) -> RegistryView {
        RegistryView {
            peers: if self.holds(op.old_id) {
                self.peers.remove(op.old_id).insert(
                    op.new_id,
                    self.peers[op.old_id].renamed(op.addr, op.pk, op.ip, now),
                )
            } else {
                self.peers
            },
            cooldown: self.cooldown.insert(op.old_id, now).insert(op.new_id, now),
        }
    }

    /// The stage that follows the ban check of a rename.
    pub open spec fn stage_after_ban(banned: Result<bool, StoreError>) -> RenameStage {
        if banned == Ok::<bool, StoreError>(true) {
            RenameStage::Done(RegisterPkResult::UUID_MISMATCH)
        } else {
            RenameStage::Identity
        }
    }

    /// The stage that follows the lookup of the old id: the entry must exist
    /// and hold the uuid that was presented.
    pub open spec fn stage_after_lookup(self, op: RenameView) -> RenameStage {
        if self.holds(op.old_id) && self.peers[op.old_id].uuid == op.uuid {
            RenameStage::Availability
        } else {
            RenameStage::Done(RegisterPkResult::UUID_MISMATCH)
        }
    }

    /// The stage that follows the store's word on the new id: it must be free
    /// in the store and in the registry.
    pub open spec fn stage_after_availability(
        self,
        op: RenameView,
        available: Result<bool, StoreError>,
    ) -> RenameStage {
        match available {
            Err(_) => RenameStage::Done(RegisterPkResult::SERVER_ERROR),
            Ok(free) => if !free || self.holds(op.new_id) {
                RenameStage::Done(RegisterPkResult::UUID_MISMATCH)
            } else {
                RenameStage::Persist
            },
        }
    }

    /// One step of a rename: the registry and the stage after `answer` has
    /// come in at `now`. An answer that the stage did not ask for changes
    /// nothing.
    pub open spec fn rename_step(self, op: RenameView, answer: RenameAnswer, now: u64) -> (
        RegistryView,
        RenameStage,
    ) {
        match (op.stage, answer) {
            (RenameStage::Ban, RenameAnswer::Banned(banned)) => (self, Self::stage_after_ban(banned)),
            (RenameStage::Identity, RenameAnswer::Looked(stored)) => {
                let looked = self.after_get(op.old_id, stored, now);
                (looked, looked.stage_after_lookup(op))
            },
            (RenameStage::Availability, RenameAnswer::Available(available)) => (
                self,
                self.stage_after_availability(op, available),
            ),
            (RenameStage::Persist, RenameAnswer::Renamed(renamed)) => match renamed {
                Ok(_) => (self.after_rename(op, now), RenameStage::Done(RegisterPkResult::OK)),
                Err(_) => (self, RenameStage::Done(RegisterPkResult::SERVER_ERROR)),
            },
            _ => (self, op.stage),
        }
    }

    /// The registry after the store has answered the write of a registration.
    pub open spec fn after_stored(self, id: Seq<char>, persisted: Persisted) -> RegistryView {
        if persisted is Inserted && self.holds(id) {
            RegistryView {
                peers: self.peers.insert(id, PeerView { guid: persisted->0@, ..self.peers[id] }),
                ..self
            }
        } else {
            self
        }
    }
}

/// The in-memory registry: the peers that were seen or looked up of late, and
/// the times of the last renames.
pub struct PeerMap {
    pub map: IdMap<Peer>,
    pub cooldown: IdMap<u64>,
}

impl View for PeerMap {
    type V = RegistryView;

    open spec fn view(&self) -> RegistryView {
        RegistryView { peers: self.map@, cooldown: self.cooldown@ }
    }
}

impl PeerMap {
    /// The empty registry.
    pub fn new() -> (pm: PeerMap)
        ensures
            pm@.peers == Map::<Seq<char>, PeerView>::empty(),
            pm@.cooldown == Map::<Seq<char>, u64>::empty(),
    {
        PeerMap { map: IdMap::new(), cooldown: IdMap::new() }
    }

    pub fn get_in_memory(&self, id: &str) -> (r: Option<&Peer>)
        ensures
            match r {
                Some(p) => self@.holds(id@) && self@.peers[id@] == p@,
                None => !self@.holds(id@),
            },
    {
        self.map.get(id)
    }

    pub fn is_in_memory(&self, id: &str) -> (r: bool)
        ensures
            r == self@.holds(id@),
    {
        self.map.contains_key(id)
    }

    /// The id of a peer that was last seen at `addr`, if there is one.
    pub fn get_id_by_addr(&self, addr: SocketAddress) -> (r: Option<String>)
        ensures
            match r {
                Some(id) => self@.holds(id@) && self@.peers[id@].socket_addr == addr,
                None => forall|id: Seq<char>|
                    self@.holds(id) ==> (#[trigger] self@.peers[id]).socket_addr != addr,
            },
    {
        let count: usize = self.map.len();
        let mut i: usize = 0;
        while i < count
            invariant
                count == self.map.entries().len(),
                i <= count,
                forall|j: int|
                    0 <= j < i ==> (#[trigger] self.map.entries()[j]).value.socket_addr != addr,
            decreases count - i,
        {
            let entry = self.map.entry(i);
            if entry.value.socket_addr == addr {
                return Some(entry.key.clone());
            }
            i += 1;
        }
        proof {
            self.map.lemma_view();
            assert forall|id: Seq<char>| self@.holds(id) implies (#[trigger] self@.peers[id]).socket_addr
                != addr by {
                let j = slot_of(self.map.entries(), id);
                lemma_entry(self.map.entries(), j);
            }
        }
        None
    }

    /// A heartbeat of `id` at `now`. The caller then marks the id online in
    /// the store.
    pub fn touch_peer(&mut self, id: &str, now: u64)
        ensures
            final(self)@ == old(self)@.touched(id@, now),
    {
        match self.map.remove(id) {
            Some(peer) => {
                let mut peer = peer;
                peer.last_heartbeat = Some(now);
                self.map.insert(id.to_owned(), peer);
                assert(self@.peers =~= old(self)@.touched(id@, now).peers);
            },
            None => {
                assert(self@.peers =~= old(self)@.peers);
            },
        }
    }

    /// Looks `id` up. An id that the registry holds is found without a look at
    /// `stored`; otherwise `stored`, the store's answer, decides: a row that
    /// is not banned enters the registry.
    pub fn get(&mut self, id: &str, stored: &Stored, now: u64) -> (found: bool)
        ensures
            final(self)@ == old(self)@.after_get(id@, *stored, now),
            found == (old(self)@.holds(id@) || stored.admitted()),
            found == final(self)@.holds(id@),
    {
        if self.map.contains_key(id) {
            return true;
        }
        match stored {
            Stored::Found { row, info, banned } => {
                let is_banned = match banned {
                    Ok(b) => *b,
                    Err(_) => false,
                };
                if is_banned {
                    return false;
                }
                let peer = Peer {
                    socket_addr: SocketAddress::unspecified(),
                    last_reg_time: None,
                    guid: copy_bytes(row.guid.as_slice()),
                    uuid: copy_bytes(row.uuid.as_slice()),
                    pk: copy_bytes(row.pk.as_slice()),
                    info: PeerInfo { ip: info.ip.clone() },
                    reg_pk: (0, None),
                    last_heartbeat: Some(now),
                };
                self.map.insert(id.to_owned(), peer);
                true
            },
            _ => false,
        }
    }

    /// Looks `id` up as `get` does, and leaves a placeholder under it where
    /// nothing was found, so that the registry holds the id afterwards.
    pub fn get_or(&mut self, id: &str, stored: &Stored, now: u64)
        ensures
            final(self)@ == old(self)@.after_get_or(id@, *stored, now),
            final(self)@.holds(id@),
    {
        if !self.get(id, stored, now) {
            self.map.insert(id.to_owned(), Peer::default());
        }
    }

    /// A registration of `id`, once the ban check has said `banned`.
    ///
    /// A banned id leaves the registry and the registration is answered with
    /// `UUID_MISMATCH`. A failed ban check lets the registration pass. Where
    /// it passes, the entry takes the address, uuid, key and ip and fresh
    /// stamps, a placeholder standing in where the registry did not hold the
    /// id, and the store is asked to insert a row, or to update the row of
    /// the guid that the entry has.
    pub fn update_pk(
        &mut self,
        id: &str,
        addr: SocketAddress,
        uuid: &[u8],
        pk: &[u8],
        ip: &str,
        now: u64,
        banned: &Result<bool, StoreError>,
    ) -> (step: Registration)
        ensures
            final(self)@ == old(self)@.after_update_pk(id@, addr, uuid@, pk@, ip@, now, *banned),
            match step {
                Registration::Reply(result) => *banned == Ok::<bool, StoreError>(true) && result
                    == RegisterPkResult::UUID_MISMATCH,
                Registration::Insert => *banned != Ok::<bool, StoreError>(true) && old(
                    self,
                )@.peer_or_placeholder(id@).guid.len() == 0,
                Registration::Update(guid) => *banned != Ok::<bool, StoreError>(true) && guid@.len()
                    > 0 && guid@ == old(self)@.peer_or_placeholder(id@).guid,
            },
    {
        let is_banned = match banned {
            Ok(b) => *b,
            Err(_) => false,
        };
        if is_banned {
            let _ = self.map.remove(id);
            return Registration::Reply(RegisterPkResult::UUID_MISMATCH);
        }
        let mut peer = match self.map.remove(id) {
            Some(p) => p,
            None => Peer::default(),
        };
        peer.socket_addr = addr;
        peer.uuid = copy_bytes(uuid);
        peer.pk = copy_bytes(pk);
        peer.last_reg_time = Some(now);
        peer.last_heartbeat = Some(now);
        peer.info.ip = ip.to_owned();
        let step = if peer.guid.len() == 0 {
            Registration::Insert
        } else {
            Registration::Update(copy_bytes(peer.guid.as_slice()))
        };
        self.map.insert(id.to_owned(), peer);
        assert(final(self)@.peers =~= old(self)@.after_update_pk(
            id@,
            addr,
            uuid@,
            pk@,
            ip@,
            now,
            *banned,
        ).peers);
        step
    }

    /// The end of a registration, once the store has answered the write. A
    /// new guid is kept with the entry. Where the result says so, the caller
    /// then marks the id online in the store, without waiting for it.
    pub fn update_pk_stored(&mut self, id: &str, persisted: &Persisted) -> (result: RegisterPkResult)
        ensures
            final(self)@ == old(self)@.after_stored(id@, *persisted),
            result == if persisted is Failed {
                RegisterPkResult::SERVER_ERROR
            } else {
                RegisterPkResult::OK
            },
    {
        match persisted {
            Persisted::Inserted(guid) => {
                match self.map.remove(id) {
                    Some(peer) => {
                        let mut peer = peer;
                        peer.guid = copy_bytes(guid.as_slice());
                        self.map.insert(id.to_owned(), peer);
                        assert(self@.peers =~= old(self)@.after_stored(id@, *persisted).peers);
                    },
                    None => {
                        assert(self@.peers =~= old(self)@.peers);
                    },
                }
                RegisterPkResult::OK
            },
            Persisted::Updated => RegisterPkResult::OK,
            Persisted::Failed => RegisterPkResult::SERVER_ERROR,
        }
    }

    /// Takes every peer out of the registry whose last heartbeat lies more
    /// than `timeout_secs` seconds before `now`, and lists who went and who
    /// stayed.
    pub fn check_online_peers(&mut self, now: u64, timeout_secs: u64) -> (sweep: Sweep)
        ensures
            final(self)@ == old(self)@.swept(now, timeout_secs),
            forall|id: Seq<char>| #[trigger]
                holds_id(sweep.offline@, id) <==> old(self)@.stale(id, now, timeout_secs),
            forall|id: Seq<char>| #[trigger]
                holds_id(sweep.online@, id) <==> old(self)@.holds(id) && !old(self)@.stale(
                    id,
                    now,
                    timeout_secs,
                ),
            distinct_ids(sweep.offline@),
            distinct_ids(sweep.online@),
    {
        let ghost orig = self.map.entries();
        let count: usize = self.map.len();
        let mut flags: Vec<bool> = Vec::new();
        let mut i: usize = 0;
        while i < count
            invariant
                count == self.map.entries().len(),
                i <= count,
                flags@.len() == i,
                forall|j: int|
                    0 <= j < i ==> #[trigger] flags@[j] == older_than(
                        self.map.entries()[j].value.last_heartbeat,
                        now,
                        timeout_secs,
                    ),
            decreases count - i,
        {
            flags.push(is_older_than(self.map.entry(i).value.last_heartbeat, now, timeout_secs));
            i += 1;
        }
        proof {
            self.map.lemma_view();
            assert forall|id: Seq<char>| old(self)@.holds(id) implies (crate::idmap::flagged(
                orig,
                flags@,
                id,
            ) <==> old(self)@.stale(id, now, timeout_secs)) by {
                lemma_entry(orig, slot_of(orig, id));
            }
        }
        let offline = self.map.remove_flagged(&flags);
        let online = self.map.keys();
        assert(final(self)@.peers =~= old(self)@.swept(now, timeout_secs).peers);
        Sweep { online, offline }
    }

    /// One round of the background cleanup: the sweep for peers that have
    /// missed the heartbeat timeout, and the pruning of the abuse records.
    pub fn status_cleanup(&mut self, abuse: &mut AbuseTracking, now: u64) -> (sweep: Sweep)
        ensures
            final(self)@ == old(self)@.swept(now, HEARTBEAT_TIMEOUT_SECS),
            forall|id: Seq<char>| #[trigger]
                holds_id(sweep.offline@, id) <==> old(self)@.stale(id, now, HEARTBEAT_TIMEOUT_SECS),
            forall|id: Seq<char>| #[trigger]
                holds_id(sweep.online@, id) <==> old(self)@.holds(id) && !old(self)@.stale(
                    id,
                    now,
                    HEARTBEAT_TIMEOUT_SECS,
                ),
            distinct_ids(sweep.offline@),
            distinct_ids(sweep.online@),
            final(abuse).cleaned_from(old(abuse), now),
    {
        let sweep = self.check_online_peers(now, HEARTBEAT_TIMEOUT_SECS);
        let _ = abuse.cleanup_ip_maps(now);
        sweep
    }

    /// Counts the peers by their health at `now`.
    pub fn get_stats(&self, now: u64, cfg: &StatsConfig) -> (stats: PeerStats)
        requires
            cfg.heartbeat_interval > 0,
        ensures
            stats.total == self@.peers.dom().len(),
            stats.healthy == self@.with_health(Health::Healthy, now, *cfg).len(),
            stats.degraded == self@.with_health(Health::Degraded, now, *cfg).len(),
            stats.critical == self@.with_health(Health::Critical, now, *cfg).len(),
            stats.healthy + stats.degraded + stats.critical <= stats.total,
    {
        let total: usize = self.map.len();
        let mut healthy: usize = 0;
        let mut degraded: usize = 0;
        let mut critical: usize = 0;
        let mut i: usize = 0;
        while i < total
            invariant
                cfg.heartbeat_interval > 0,
                total == self.map.entries().len(),
                i <= total,
                healthy + degraded + critical <= i,
                healthy == count_health(self.map.entries().take(i as int), Health::Healthy, now, *cfg),
                degraded == count_health(
                    self.map.entries().take(i as int),
                    Health::Degraded,
                    now,
                    *cfg,
                ),
                critical == count_health(
                    self.map.entries().take(i as int),
                    Health::Critical,
                    now,
                    *cfg,
                ),
            decreases total - i,
        {
            let h = cfg.classify(self.map.entry(i).value.last_heartbeat, now);
            proof {
                let next = self.map.entries().take(i + 1);
                assert(next.drop_last() =~= self.map.entries().take(i as int));
                assert(next.last() == self.map.entries()[i as int]);
            }
            match h {
                Health::Healthy => {
                    healthy += 1;
                },
                Health::Degraded => {
                    degraded += 1;
                },
                Health::Critical => {
                    critical += 1;
                },
                Health::TimedOut => {},
            }
            i += 1;
        }
        proof {
            assert(self.map.entries().take(i as int) =~= self.map.entries());
            self.map.lemma_view();
            lemma_count_health(self.map.entries(), Health::Healthy, now, *cfg);
            lemma_count_health(self.map.entries(), Health::Degraded, now, *cfg);
            lemma_count_health(self.map.entries(), Health::Critical, now, *cfg);
            assert(self@.with_health(Health::Healthy, now, *cfg) =~= (RegistryView {
                peers: as_map(self.map.entries()),
                cooldown: Map::empty(),
            }).with_health(Health::Healthy, now, *cfg));
            assert(self@.with_health(Health::Degraded, now, *cfg) =~= (RegistryView {
                peers: as_map(self.map.entries()),
                cooldown: Map::empty(),
            }).with_health(Health::Degraded, now, *cfg));
            assert(self@.with_health(Health::Critical, now, *cfg) =~= (RegistryView {
                peers: as_map(self.map.entries()),
                cooldown: Map::empty(),
            }).with_health(Health::Critical, now, *cfg));
        }
        PeerStats { total, healthy, degraded, critical }
    }

    /// Starts a rename of `old_id` to `new_id`, asked for from `addr` at `now`.
    ///
    /// The new id is put in upper case. The rename ends at once with
    /// `UUID_MISMATCH` where the new id has not the form of an id, and with
    /// `TOO_FREQUENT` where the old id is in its cooldown; otherwise it waits
    /// for the ban check.
    pub fn change_id(
        &self,
        old_id: &str,
        new_id: &str,
        addr: SocketAddress,
        uuid: &[u8],
        pk: &[u8],
        ip: &str,
        now: u64,
    ) -> (op: Rename)
        ensures
            op@ == (RenameView {
                old_id: old_id@,
                new_id: uppercase_of(new_id@),
                addr,
                uuid: uuid@,
                pk: pk@,
                ip: ip@,
                stage: self@.rename_start(old_id@, uppercase_of(new_id@), now),
            }),
    {
        self.begin_rename(old_id, normalize_id(new_id), addr, uuid, pk, ip, now)
    }

    /// Starts a rename of `old_id` to `new_id`, which is in upper case
    /// already: the form of the new id is tested first, then the cooldown of
    /// the old one.
    pub fn begin_rename(
        &self,
        old_id: &str,
        new_id: String,
        addr: SocketAddress,
        uuid: &[u8],
        pk: &[u8],
        ip: &str,
        now: u64,
    ) -> (op: Rename)
        ensures
            op@ == (RenameView {
                old_id: old_id@,
                new_id: new_id@,
                addr,
                uuid: uuid@,
                pk: pk@,
                ip: ip@,
                stage: self@.rename_start(old_id@, new_id@, now),
            }),
    {
        let stage = if !is_valid_id(new_id.as_str()) {
            RenameStage::Done(RegisterPkResult::UUID_MISMATCH)
        } else {
            let cooling = match self.cooldown.get(old_id) {
                Some(last) => elapsed(now, *last) / 1000 < ID_CHANGE_COOLDOWN_SECS,
                None => false,
            };
            if cooling {
                RenameStage::Done(RegisterPkResult::TOO_FREQUENT)
            } else {
                RenameStage::Ban
            }
        };
        Rename {
            old_id: old_id.to_owned(),
            new_id,
            addr,
            uuid: copy_bytes(uuid),
            pk: copy_bytes(pk),
            ip: ip.to_owned(),
            stage,
        }
    }

    /// Takes an answer for a rename in flight and moves it to its next stage.
    ///
    /// In order: a banned old id ends the rename with `UUID_MISMATCH`, a
    /// failed ban check does not; the old id must be found, in the registry
    /// or the store, with the uuid that was presented, else `UUID_MISMATCH`;
    /// the new id must be free in the store and in the registry, else
    /// `UUID_MISMATCH`, and `SERVER_ERROR` where the store could not say; the
    /// store's rename must succeed, else `SERVER_ERROR`. Then the entry moves
    /// and the result is `OK`, after which the caller marks the new id online
    /// in the store, as the result says.
    pub fn change_id_answer(&mut self, op: &mut Rename, answer: &RenameAnswer, now: u64)
        ensures
            final(self)@ == old(self)@.rename_step(old(op)@, *answer, now).0,
            final(op)@ == (RenameView {
                stage: old(self)@.rename_step(old(op)@, *answer, now).1,
                ..old(op)@
            }),
    {
        match (op.stage, answer) {
            (RenameStage::Ban, RenameAnswer::Banned(banned)) => {
                let is_banned = match banned {
                    Ok(b) => *b,
                    Err(_) => false,
                };
                op.stage = if is_banned {
                    RenameStage::Done(RegisterPkResult::UUID_MISMATCH)
                } else {
                    RenameStage::Identity
                };
            },
            (RenameStage::Identity, RenameAnswer::Looked(stored)) => {
                let _ = self.get(op.old_id.as_str(), stored, now);
                let same = match self.map.get(op.old_id.as_str()) {
                    Some(peer) => bytes_eq(peer.uuid.as_slice(), op.uuid.as_slice()),
                    None => false,
                };
                op.stage = if same {
                    RenameStage::Availability
                } else {
                    RenameStage::Done(RegisterPkResult::UUID_MISMATCH)
                };
            },
            (RenameStage::Availability, RenameAnswer::Available(available)) => {
                op.stage = match available {
                    Err(_) => RenameStage::Done(RegisterPkResult::SERVER_ERROR),
                    Ok(free) => if !*free || self.map.contains_key(op.new_id.as_str()) {
                        RenameStage::Done(RegisterPkResult::UUID_MISMATCH)
                    } else {
                        RenameStage::Persist
                    },
                };
            },
            (RenameStage::Persist, RenameAnswer::Renamed(renamed)) => {
                match renamed {
                    Ok(_) => {
                        match self.map.remove(op.old_id.as_str()) {
                            Some(peer) => {
                                let mut peer = peer;
                                peer.socket_addr = op.addr;
                                peer.pk = copy_bytes(op.pk.as_slice());
                                peer.last_reg_time = Some(now);
                                peer.last_heartbeat = Some(now);
                                peer.info.ip = op.ip.clone();
                                self.map.insert(op.new_id.clone(), peer);
                            },
                            None => {},
                        }
                        self.cooldown.insert(op.old_id.clone(), now);
                        self.cooldown.insert(op.new_id.clone(), now);
                        op.stage = RenameStage::Done(RegisterPkResult::OK);
                        assert(final(self)@.peers =~= old(self)@.after_rename(old(op)@, now).peers);
                    },
                    Err(_) => {
                        op.stage = RenameStage::Done(RegisterPkResult::SERVER_ERROR);
                    },
                }
            },
            _ => {},
        }
    }
}

/// A registration that the ban check lets pass is read back: the registry
/// then holds the id with the uuid and the key that were presented, before
/// and after the store has answered the write, and a lookup finds that entry
/// whatever the store would say.
pub proof fn lemma_registration_is_read_back(
    r: RegistryView,
    id: Seq<char>,
    addr: SocketAddress,
    uuid: Seq<u8>,
    pk: Seq<u8>,
    ip: Seq<char>,
    now: u64,
    banned: Result<bool, StoreError>,
    persisted: Persisted,
    stored: Stored,
    later: u64,
)
    requires
        banned != Ok::<bool, StoreError>(true),
    ensures
        ({
            let written = r.after_update_pk(id, addr, uuid, pk, ip, now, banned);
            let read = written.after_get(id, stored, later);
            &&& read == written
            &&& read.holds(id)
            &&& read.peers[id].uuid == uuid
            &&& read.peers[id].pk == pk
        }),
        ({
            let settled = r.after_update_pk(id, addr, uuid, pk, ip, now, banned).after_stored(
                id,
                persisted,
            );
            let read = settled.after_get(id, stored, later);
            &&& read == settled
            &&& read.holds(id)
            &&& read.peers[id].uuid == uuid
            &&& read.peers[id].pk == pk
        }),
{
}

/// A ban keeps a peer out of the registry, whatever the registry held: a row
/// that the ban check calls banned is not loaded, and a registration under a
/// banned id leaves no entry. A ban check that fails keeps nobody out.
pub proof fn lemma_ban_excludes_and_fails_open(
    r: RegistryView,
    id: Seq<char>,
    row: database::Peer,
    info: PeerInfo,
    addr: SocketAddress,
    uuid: Seq<u8>,
    pk: Seq<u8>,
    ip: Seq<char>,
    now: u64,
)
    ensures
        !r.holds(id) ==> r.after_get(id, Stored::Found { row, info, banned: Ok(true) }, now) == r,
        !r.after_update_pk(id, addr, uuid, pk, ip, now, Ok(true)).holds(id),
        r.after_get(id, Stored::Found { row, info, banned: Err(StoreError {  }) }, now).holds(id),
        r.after_update_pk(id, addr, uuid, pk, ip, now, Err(StoreError {  })).holds(id),
{
}

/// The guid of an entry stays what it is through a heartbeat, a new
/// registration and a rename; only the store's word on an insert sets it.
pub proof fn lemma_guid_is_kept(
    r: RegistryView,
    id: Seq<char>,
    addr: SocketAddress,
    uuid: Seq<u8>,
    pk: Seq<u8>,
    ip: Seq<char>,
    banned: Result<bool, StoreError>,
    op: RenameView,
    now: u64,
)
    requires
        r.holds(id),
    ensures
        r.touched(id, now).peers[id].guid == r.peers[id].guid,
        banned != Ok::<bool, StoreError>(true) ==> r.after_update_pk(
            id,
            addr,
            uuid,
            pk,
            ip,
            now,
            banned,
        ).peers[id].guid == r.peers[id].guid,
        r.after_stored(id, Persisted::Updated).peers[id].guid == r.peers[id].guid,
        r.after_stored(id, Persisted::Failed).peers[id].guid == r.peers[id].guid,
        op.old_id == id ==> r.after_rename(op, now).peers[op.new_id].guid == r.peers[id].guid
            && r.after_rename(op, now).peers[op.new_id].uuid == r.peers[id].uuid,
{
}

/// After a rename at `then`, a rename of the same old id is turned away with
/// `TOO_FREQUENT` while less than the cooldown has passed, and is let
/// through to the ban check from then on. The same holds of the new id.
pub proof fn lemma_rename_cooldown(
    r: RegistryView,
    op: RenameView,
    then: u64,
    next_id: Seq<char>,
    now: u64,
)
    requires
        valid_id(next_id),
    ensures
        ({
            let renamed = r.after_rename(op, then);
            &&& elapsed_ms(now, then) < ID_CHANGE_COOLDOWN_SECS * 1000 ==> renamed.rename_start(
                op.old_id,
                next_id,
                now,
            ) == RenameStage::Done(RegisterPkResult::TOO_FREQUENT) && renamed.rename_start(
                op.new_id,
                next_id,
                now,
            ) == RenameStage::Done(RegisterPkResult::TOO_FREQUENT)
            &&& elapsed_ms(now, then) >= ID_CHANGE_COOLDOWN_SECS * 1000 ==> renamed.rename_start(
                op.old_id,
                next_id,
                now,
            ) == RenameStage::Ban && renamed.rename_start(op.new_id, next_id, now)
                == RenameStage::Ban
        }),
{
}

/// A rename whose uuid is not the one that the entry of the old id holds ends
/// with `UUID_MISMATCH`, and so does one whose old id is found nowhere.
pub proof fn lemma_rename_needs_the_uuid(r: RegistryView, op: RenameView, stored: Stored, now: u64)
    requires
        op.stage == RenameStage::Identity,
        ({
            let looked = r.after_get(op.old_id, stored, now);
            !looked.holds(op.old_id) || looked.peers[op.old_id].uuid != op.uuid
        }),
    ensures
        r.rename_step(op, RenameAnswer::Looked(stored), now).1 == RenameStage::Done(
            RegisterPkResult::UUID_MISMATCH,
        ),
{
}

/// A rename to an id that the store or the registry already holds ends with
/// `UUID_MISMATCH` and changes nothing.
pub proof fn lemma_rename_needs_a_free_id(r: RegistryView, op: RenameView, free_in_store: bool, now: u64)
    requires
        op.stage == RenameStage::Availability,
        !free_in_store || r.holds(op.new_id),
    ensures
        r.rename_step(op, RenameAnswer::Available(Ok(free_in_store)), now) == (
            r,
            RenameStage::Done(RegisterPkResult::UUID_MISMATCH),
        ),
{
}

/// A peer whose last heartbeat lies further back than the timeout is gone
/// after the sweep, and the next lookup takes it from the store again, with
/// the guid of its row.
pub proof fn lemma_stale_peer_is_swept_and_reloaded(
    r: RegistryView,
    id: Seq<char>,
    now: u64,
    timeout_secs: u64,
    stored: Stored,
    later: u64,
)
    requires
        r.stale(id, now, timeout_secs),
    ensures
        !r.swept(now, timeout_secs).holds(id),
        stored.admitted() ==> {
            let reloaded = r.swept(now, timeout_secs).after_get(id, stored, later);
            reloaded.holds(id) && reloaded.peers[id].guid == stored->row.guid@
        },
        !stored.admitted() ==> r.swept(now, timeout_secs).after_get(id, stored, later) == r.swept(
            now,
            timeout_secs,
        ),
{
}

} // verus!
