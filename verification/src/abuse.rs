//! Short-lived records of what each address has been doing, kept to slow
//! down abuse. They decide nothing about a peer's identity and are pruned as
//! they age.

use crate::clock::{elapsed, elapsed_ms};
use crate::idmap::{flagged, lemma_entry, slot_of, IdMap};
use vstd::prelude::*;

verus! {

/// Seconds within which the id changes from one address are counted
/// together.
pub const IP_CHANGE_DUR: u64 = 180;

/// Seconds after which a record of id changes is dropped.
pub const IP_CHANGE_DUR_X2: u64 = IP_CHANGE_DUR * 2;

/// Seconds after which a record of the ids seen from an address is dropped.
pub const DAY_SECONDS: u64 = 3600 * 24;

/// Seconds after which a count of requests from an address is dropped.
pub const IP_BLOCK_DUR: u64 = 60;

/// Seconds that must pass between two prunings.
pub const PRUNE_INTERVAL_SECS: u64 = 300;

/// What one address has asked of late.
pub struct IpBlock {
    /// Requests since `count_since`.
    pub count: u32,
    pub count_since: u64,
    /// The ids asked for since `ids_since`.
    pub ids: Vec<String>,
    pub ids_since: u64,
}

/// The id changes seen from one address.
pub struct IpChanges {
    pub since: u64,
    /// By id, the number of changes.
    pub changes: Vec<(String, i32)>,
}

impl View for IpBlock {
    type V = IpBlock;

    open spec fn view(&self) -> IpBlock {
        *self
    }
}

impl View for IpChanges {
    type V = IpChanges;

    open spec fn view(&self) -> IpChanges {
        *self
    }
}

/// Whole seconds from `then` to `now`.
pub open spec fn secs_between(now: u64, then: u64) -> int {
    elapsed_ms(now, then) / 1000
}

/// Whether a record of requests is still kept at `now`: both of its stamps
/// are young enough.
pub open spec fn block_kept(block: IpBlock, now: u64) -> bool {
    secs_between(now, block.count_since) < IP_BLOCK_DUR && secs_between(now, block.ids_since)
        < DAY_SECONDS
}

/// Whether a record of id changes is still kept at `now`.
pub open spec fn changes_kept(changes: IpChanges, now: u64) -> bool {
    secs_between(now, changes.since) < IP_CHANGE_DUR_X2
}

/// Whether a pruning is due at `now`, the last one having been at `last`.
pub open spec fn prune_due(last: Option<u64>, now: u64) -> bool {
    match last {
        Some(then) => secs_between(now, then) >= PRUNE_INTERVAL_SECS,
        None => true,
    }
}

pub struct AbuseTracking {
    /// By address, the requests of late.
    pub ip_blocker: IdMap<IpBlock>,
    /// By address, the id changes of late.
    pub ip_changes: IdMap<IpChanges>,
    /// The time of the last pruning.
    pub last_cleanup: Option<u64>,
}

impl AbuseTracking {
    pub fn new() -> (t: AbuseTracking)
        ensures
            t.ip_blocker@ == Map::<Seq<char>, IpBlock>::empty(),
            t.ip_changes@ == Map::<Seq<char>, IpChanges>::empty(),
            t.last_cleanup is None,
    {
        AbuseTracking { ip_blocker: IdMap::new(), ip_changes: IdMap::new(), last_cleanup: None }
    }

    /// Whether `self` is what a cleanup at `now` makes of `before`: where a
    /// pruning is due, the records that are still kept and the new time of
    /// pruning; otherwise `before` itself.
    pub open spec fn cleaned_from(&self, before: &AbuseTracking, now: u64) -> bool {
        if prune_due(before.last_cleanup, now) {
            &&& self.last_cleanup == Some(now)
            &&& self.ip_blocker@ == Map::new(
                |ip: Seq<char>|
                    before.ip_blocker@.dom().contains(ip) && block_kept(before.ip_blocker@[ip], now),
                |ip: Seq<char>| before.ip_blocker@[ip],
            )
            &&& self.ip_changes@ == Map::new(
                |ip: Seq<char>|
                    before.ip_changes@.dom().contains(ip) && changes_kept(
                        before.ip_changes@[ip],
                        now,
                    ),
                |ip: Seq<char>| before.ip_changes@[ip],
            )
        } else {
            *self == *before
        }
    }

    /// Drops the records that are too old to matter, unless the last pruning
    /// is less than five minutes back; says whether it pruned.
    pub fn cleanup_ip_maps(&mut self, now: u64) -> (pruned: bool)
        ensures
            pruned == prune_due(old(self).last_cleanup, now),
            final(self).cleaned_from(old(self), now),
    {
        let due = match self.last_cleanup {
            Some(then) => elapsed(now, then) / 1000 >= PRUNE_INTERVAL_SECS,
            None => true,
        };
        if !due {
            return false;
        }
        let ghost blocks = self.ip_blocker.entries();
        let block_count: usize = self.ip_blocker.len();
        let mut old_blocks: Vec<bool> = Vec::new();
        let mut i: usize = 0;
        while i < block_count
            invariant
                block_count == self.ip_blocker.entries().len(),
                i <= block_count,
                old_blocks@.len() == i,
                forall|j: int|
                    0 <= j < i ==> #[trigger] old_blocks@[j] == !block_kept(
                        self.ip_blocker.entries()[j].value,
                        now,
                    ),
            decreases block_count - i,
        {
            let block = &self.ip_blocker.entry(i).value;
            let kept = elapsed(now, block.count_since) / 1000 < IP_BLOCK_DUR && elapsed(
                now,
                block.ids_since,
            ) / 1000 < DAY_SECONDS;
            old_blocks.push(!kept);
            i += 1;
        }
        proof {
            self.ip_blocker.lemma_view();
            assert forall|ip: Seq<char>| old(self).ip_blocker@.dom().contains(ip) implies (flagged(
                blocks,
                old_blocks@,
                ip,
            ) <==> !block_kept(old(self).ip_blocker@[ip], now)) by {
                lemma_entry(blocks, slot_of(blocks, ip));
            }
        }
        let _ = self.ip_blocker.remove_flagged(&old_blocks);
        let ghost changes = self.ip_changes.entries();
        let change_count: usize = self.ip_changes.len();
        let mut old_changes: Vec<bool> = Vec::new();
        let mut k: usize = 0;
        while k < change_count
            invariant
                change_count == self.ip_changes.entries().len(),
                k <= change_count,
                old_changes@.len() == k,
                forall|j: int|
                    0 <= j < k ==> #[trigger] old_changes@[j] == !changes_kept(
                        self.ip_changes.entries()[j].value,
                        now,
                    ),
            decreases change_count - k,
        {
            let kept = elapsed(now, self.ip_changes.entry(k).value.since) / 1000 < IP_CHANGE_DUR_X2;
            old_changes.push(!kept);
            k += 1;
        }
        proof {
            self.ip_changes.lemma_view();
            assert forall|ip: Seq<char>| old(self).ip_changes@.dom().contains(ip) implies (flagged(
                changes,
                old_changes@,
                ip,
            ) <==> !changes_kept(old(self).ip_changes@[ip], now)) by {
                lemma_entry(changes, slot_of(changes, ip));
            }
        }
        let _ = self.ip_changes.remove_flagged(&old_changes);
        self.last_cleanup = Some(now);
        assert(self.ip_blocker@ =~= Map::new(
            |ip: Seq<char>|
                old(self).ip_blocker@.dom().contains(ip) && block_kept(old(self).ip_blocker@[ip], now),
            |ip: Seq<char>| old(self).ip_blocker@[ip],
        ));
        assert(self.ip_changes@ =~= Map::new(
            |ip: Seq<char>|
                old(self).ip_changes@.dom().contains(ip) && changes_kept(
                    old(self).ip_changes@[ip],
                    now,
                ),
            |ip: Seq<char>| old(self).ip_changes@[ip],
        ));
        true
    }
}

} // verus!
