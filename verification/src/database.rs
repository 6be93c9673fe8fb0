//! The persistence layer's side of the library: the rows it stores, the rules
//! for retrying and for sizing the pool, and the way each operation's outcome
//! passes through the circuit breaker.
//!
//! The connections are the caller's: each function here takes what the store
//! said to a statement and the times at which the operation began and ended.

use crate::breaker::CircuitBreaker;
use crate::text::{parse_u64, parsed_u64};
use vstd::arithmetic::power2::{lemma2_to64, pow2};
use vstd::prelude::*;

verus! {

/// Connections in the pool where no size is configured.
pub const DEFAULT_MAX_CONNECTIONS: usize = 5;

/// Failed attempts after which a connection is given up.
pub const CONNECT_ATTEMPTS: u32 = 3;

/// Milliseconds that the wait before a new attempt to connect starts from.
pub const CONNECT_BACKOFF_MS: u64 = 100;

/// Failed attempts after which priming the pool is given up.
pub const POOL_ATTEMPTS: u32 = 5;

/// Milliseconds of wait that each failed attempt to prime the pool adds.
pub const POOL_BACKOFF_MS: u64 = 500;

/// The store file where none is configured.
pub const DEFAULT_URL: &'static str = "./db_v2.sqlite3";

/// Creates the table of the peers and its indexes where they are missing.
pub const CREATE_TABLES: &'static str = "
    create table if not exists peer (
        guid blob primary key not null,
        id varchar(100) not null,
        uuid blob not null,
        pk blob not null,
        created_at datetime not null default(current_timestamp),
        user blob,
        status tinyint,
        note varchar(300),
        info text not null,
        last_online datetime,
        is_banned tinyint not null default 0,
        is_deleted tinyint not null default 0,
        previous_ids text not null default '',
        id_changed_at datetime
    ) without rowid;
    create unique index if not exists index_peer_id on peer (id);
    create index if not exists index_peer_user on peer (user);
    create index if not exists index_peer_created_at on peer (created_at);
    create index if not exists index_peer_status on peer (status);
";

/// Reads the row of an id. Parameter: the id.
pub const SELECT_PEER: &'static str =
    "select guid, id, uuid, pk, user, status, info from peer where id = ?";

/// Inserts a row. Parameters: guid, id, uuid, pk, info.
pub const INSERT_PEER: &'static str =
    "insert into peer(guid, id, uuid, pk, info) values(?, ?, ?, ?, ?)";

/// Updates the id, key and info of a row. Parameters: id, pk, info, guid.
pub const UPDATE_PK: &'static str = "update peer set id=?, pk=?, info=? where guid=?";

/// Reads the ban flag of an id. Parameter: the id.
pub const SELECT_BAN: &'static str = "SELECT is_banned FROM peer WHERE id = ? AND is_deleted = 0";

/// Marks an id online, with the time. Parameter: the id.
pub const SET_ONLINE: &'static str =
    "UPDATE peer SET last_online = datetime('now') WHERE id = ? AND is_deleted = 0";

/// Marks an id offline. Parameter: the id.
pub const SET_OFFLINE: &'static str =
    "UPDATE peer SET last_online = NULL WHERE id = ? AND is_deleted = 0";

/// Marks every id offline.
pub const SET_ALL_OFFLINE: &'static str =
    "UPDATE peer SET last_online = NULL WHERE last_online IS NOT NULL";

/// Reads the history of an id. Parameter: the id.
pub const SELECT_PREVIOUS_IDS: &'static str =
    "SELECT previous_ids FROM peer WHERE id = ? AND is_deleted = 0";

/// Renames a row, with its new history and the time. Parameters: the new id,
/// the history, the old id.
pub const RENAME_PEER: &'static str =
    "UPDATE peer SET id = ?, previous_ids = ?, id_changed_at = datetime('now') WHERE id = ? AND is_deleted = 0";

/// A store operation failed; what failed is the caller's to log.
#[derive(Clone, Copy, Debug, PartialEq, Eq, Structural)]
pub struct StoreError {}

/// A stored peer identity row.
#[derive(Debug)]
pub struct Peer {
    pub guid: Vec<u8>,
    pub id: String,
    pub uuid: Vec<u8>,
    pub pk: Vec<u8>,
    pub user: Option<Vec<u8>>,
    pub info: String,
    pub status: Option<i64>,
}

/// What follows a failed attempt.
#[derive(Clone, Copy, Debug, PartialEq, Eq, Structural)]
pub enum Retry {
    /// The failure is final.
    GiveUp,
    /// A new attempt follows after this many milliseconds.
    WaitMs(u64),
}

/// Why a rename did not reach the store.
#[derive(Debug)]
pub enum RenameError<E> {
    /// The statement ran and changed no row.
    NoRowsAffected,
    /// The statement failed.
    Store(E),
}

/// What follows the `failures`-th failed attempt to connect in a row.
pub open spec fn connect_retry(failures: u32) -> Retry {
    if failures >= CONNECT_ATTEMPTS {
        Retry::GiveUp
    } else {
        Retry::WaitMs((CONNECT_BACKOFF_MS * pow2(failures as nat)) as u64)
    }
}

/// What follows the `failures`-th failed attempt to prime the pool in a row.
pub open spec fn pool_retry(failures: u32) -> Retry {
    if failures >= POOL_ATTEMPTS {
        Retry::GiveUp
    } else {
        Retry::WaitMs((POOL_BACKOFF_MS * failures) as u64)
    }
}

/// The pool's size for the number `configured`, where one is configured
/// and it can be a size.
pub open spec fn pool_size(configured: Option<u64>) -> usize {
    match configured {
        Some(n) => if n <= usize::MAX {
            n as usize
        } else {
            DEFAULT_MAX_CONNECTIONS
        },
        None => DEFAULT_MAX_CONNECTIONS,
    }
}

/// The number that a setting holds, where there is a setting and it is a
/// number.
pub open spec fn setting_number(setting: Option<Seq<char>>) -> Option<u64> {
    match setting {
        Some(text) => parsed_u64(text),
        None => None,
    }
}

/// 16 random bytes from `uuid::Uuid::new_v4`, in the order of `as_bytes`. Of
/// the bits only the version and the variant are fixed: the high half of the
/// seventh byte is 4 and the two high bits of the ninth are 1 and 0.
#[verifier::external_body]
fn new_guid() -> (guid: Vec<u8>)
    ensures
        guid@.len() == 16,
        guid@[6] & 0xf0 == 0x40,
        guid@[8] & 0xc0 == 0x80,
{
    uuid::Uuid::new_v4().as_bytes().to_vec()
}

/// The manager of the store's connections.
pub struct DbPool {
    pub url: String,
}

impl DbPool {
    pub fn new(url: &str) -> (pool: DbPool)
        ensures
            pool.url@ == url@,
    {
        DbPool { url: url.to_owned() }
    }

    /// What follows the `failures`-th failed attempt to connect in a row: the
    /// third failure is final, and before it the wait doubles with each
    /// failure, to 200 ms after the first.
    pub fn create(failures: u32) -> (r: Retry)
        ensures
            r == connect_retry(failures),
    {
        if failures >= CONNECT_ATTEMPTS {
            return Retry::GiveUp;
        }
        proof {
            lemma2_to64();
        }
        let mut wait: u64 = CONNECT_BACKOFF_MS;
        let mut i: u32 = 0;
        while i < failures
            invariant
                failures < CONNECT_ATTEMPTS,
                i <= failures,
                wait == CONNECT_BACKOFF_MS * pow2(i as nat),
                pow2(0) == 1 && pow2(1) == 2 && pow2(2) == 4,
            decreases failures - i,
        {
            wait = wait * 2;
            i += 1;
        }
        Retry::WaitMs(wait)
    }
}

/// The persistence layer without its connections: the pool's manager and
/// size, and the circuit breaker that every operation passes.
pub struct Database {
    pub pool: DbPool,
    pub max_connections: usize,
    pub circuit_breaker: CircuitBreaker,
}

impl Database {
    /// The persistence layer for the store at `url`, with a closed breaker.
    /// `max_connections` is the configured size of the pool as text; the size
    /// is 5 where none is configured or the text is no number.
    pub fn new(url: &str, max_connections: Option<&str>) -> (db: Database)
        ensures
            db.pool.url@ == url@,
            db.max_connections == pool_size(
                setting_number(
                    match max_connections {
                        Some(text) => Some(text@),
                        None => None,
                    },
                ),
            ),
            db.circuit_breaker == CircuitBreaker::new(),
    {
        let configured = match max_connections {
            Some(text) => parse_u64(text),
            None => None,
        };
        Database {
            pool: DbPool::new(url),
            max_connections: Self::pool_size(configured),
            circuit_breaker: CircuitBreaker::new(),
        }
    }

    /// The size of the pool for the configured number: the number itself
    /// where it can be a size, and 5 otherwise.
    pub fn pool_size(configured: Option<u64>) -> (n: usize)
        ensures
            n == pool_size(configured),
    {
        match configured {
            Some(n) => if n <= usize::MAX as u64 {
                n as usize
            } else {
                DEFAULT_MAX_CONNECTIONS
            },
            None => DEFAULT_MAX_CONNECTIONS,
        }
    }

    /// The store to open: the configured one, or `DEFAULT_URL`.
    pub fn url(configured: Option<String>) -> (url: String)
        ensures
            url@ == match configured {
                Some(text) => text@,
                None => DEFAULT_URL@,
            },
    {
        match configured {
            Some(text) => text,
            None => DEFAULT_URL.to_owned(),
        }
    }

    /// What follows the `failures`-th failed attempt to prime the pool in a
    /// row: the fifth failure is final, and before it the wait grows by half
    /// a second with each failure.
    pub fn pool_retry(failures: u32) -> (r: Retry)
        ensures
            r == pool_retry(failures),
    {
        if failures >= POOL_ATTEMPTS {
            Retry::GiveUp
        } else {
            Retry::WaitMs(POOL_BACKOFF_MS * (failures as u64))
        }
    }

    /// A row for a peer that the store does not know yet, under a new guid:
    /// 16 random bytes that are marked as such.
    pub fn new_peer(id: &str, uuid: &[u8], pk: &[u8], info: &str) -> (row: Peer)
        ensures
            row.guid@.len() == 16,
            row.guid@[6] & 0xf0 == 0x40,
            row.guid@[8] & 0xc0 == 0x80,
            row.id@ == id@,
            row.uuid@ == uuid@,
            row.pk@ == pk@,
            row.user is None,
            row.info@ == info@,
            row.status is None,
    {
        Peer {
            guid: new_guid(),
            id: id.to_owned(),
            uuid: crate::text::copy_bytes(uuid),
            pk: crate::text::copy_bytes(pk),
            user: None,
            info: info.to_owned(),
            status: None,
        }
    }

    /// The row that the store gave for an id, through the breaker.
    pub fn get_peer<E>(
        &mut self,
        started: u64,
        finished: u64,
        row: Result<Option<Peer>, E>,
    ) -> (r: Result<Option<Peer>, E>)
        ensures
            r == row,
            final(self).circuit_breaker == old(self).circuit_breaker.after_call(
                started,
                finished,
                row is Ok,
            ),
            final(self).pool == old(self).pool,
            final(self).max_connections == old(self).max_connections,
    {
        self.circuit_breaker.call(started, finished, row)
    }

    /// The guid of an inserted row, where the insert succeeded.
    pub fn insert_peer<E>(
        &mut self,
        started: u64,
        finished: u64,
        row: Peer,
        outcome: Result<(), E>,
    ) -> (r: Result<Vec<u8>, E>)
        ensures
            match r {
                Ok(guid) => outcome is Ok && guid == row.guid,
                Err(e) => outcome == Err::<(), E>(e),
            },
            final(self).circuit_breaker == old(self).circuit_breaker.after_call(
                started,
                finished,
                outcome is Ok,
            ),
            final(self).pool == old(self).pool,
            final(self).max_connections == old(self).max_connections,
    {
        match self.circuit_breaker.call(started, finished, outcome) {
            Ok(_) => Ok(row.guid),
            Err(e) => Err(e),
        }
    }

    /// The outcome of an update of a row's key and info, through the breaker.
    pub fn update_pk<E>(&mut self, started: u64, finished: u64, outcome: Result<(), E>) -> (r: Result<
        (),
        E,
    >)
        ensures
            r == outcome,
            final(self).circuit_breaker == old(self).circuit_breaker.after_call(
                started,
                finished,
                outcome is Ok,
            ),
            final(self).pool == old(self).pool,
            final(self).max_connections == old(self).max_connections,
    {
        self.circuit_breaker.call(started, finished, outcome)
    }

    /// Whether a device is banned, from the ban flag of its row: banned is
    /// the flag 1; a device without a row is not banned.
    pub fn is_device_banned<E>(
        &mut self,
        started: u64,
        finished: u64,
        flag: Result<Option<i32>, E>,
    ) -> (r: Result<bool, E>)
        ensures
            match r {
                Ok(banned) => flag is Ok && banned == (flag == Ok::<Option<i32>, E>(Some(1))),
                Err(e) => flag == Err::<Option<i32>, E>(e),
            },
            final(self).circuit_breaker == old(self).circuit_breaker.after_call(
                started,
                finished,
                flag is Ok,
            ),
            final(self).pool == old(self).pool,
            final(self).max_connections == old(self).max_connections,
    {
        match self.circuit_breaker.call(started, finished, flag) {
            Ok(Some(banned)) => Ok(banned == 1),
            Ok(None) => Ok(false),
            Err(e) => Err(e),
        }
    }

    /// Whether an id is free, from the row that the store gave for it: free
    /// is no row.
    pub fn is_id_available<E>(
        &mut self,
        started: u64,
        finished: u64,
        row: Result<Option<Peer>, E>,
    ) -> (r: Result<bool, E>)
        ensures
            match r {
                Ok(free) => row is Ok && free == (row->Ok_0 is None),
                Err(e) => row == Err::<Option<Peer>, E>(e),
            },
            final(self).circuit_breaker == old(self).circuit_breaker.after_call(
                started,
                finished,
                row is Ok,
            ),
            final(self).pool == old(self).pool,
            final(self).max_connections == old(self).max_connections,
    {
        match self.circuit_breaker.call(started, finished, row) {
            Ok(found) => Ok(found.is_none()),
            Err(e) => Err(e),
        }
    }

    /// The outcome of a rename, from the number of rows that it changed: a
    /// rename that changed no row has failed.
    pub fn change_peer_id<E>(
        &mut self,
        started: u64,
        finished: u64,
        affected: Result<u64, E>,
    ) -> (r: Result<(), RenameError<E>>)
        ensures
            match r {
                Ok(_) => affected is Ok && affected->Ok_0 > 0,
                Err(RenameError::NoRowsAffected) => affected == Ok::<u64, E>(0),
                Err(RenameError::Store(e)) => affected == Err::<u64, E>(e),
            },
            final(self).circuit_breaker == old(self).circuit_breaker.after_call(
                started,
                finished,
                affected is Ok,
            ),
            final(self).pool == old(self).pool,
            final(self).max_connections == old(self).max_connections,
    {
        match self.circuit_breaker.call(started, finished, affected) {
            Ok(rows) => if rows > 0 {
                Ok(())
            } else {
                Err(RenameError::NoRowsAffected)
            },
            Err(e) => Err(RenameError::Store(e)),
        }
    }

    /// The outcome of marking one id online, through the breaker.
    pub fn set_online<E>(&mut self, started: u64, finished: u64, outcome: Result<(), E>) -> (r:
        Result<(), E>)
        ensures
            r == outcome,
            final(self).circuit_breaker == old(self).circuit_breaker.after_call(
                started,
                finished,
                outcome is Ok,
            ),
            final(self).pool == old(self).pool,
            final(self).max_connections == old(self).max_connections,
    {
        self.circuit_breaker.call(started, finished, outcome)
    }

    /// The outcome of marking one id offline, through the breaker.
    pub fn set_offline<E>(&mut self, started: u64, finished: u64, outcome: Result<(), E>) -> (r:
        Result<(), E>)
        ensures
            r == outcome,
            final(self).circuit_breaker == old(self).circuit_breaker.after_call(
                started,
                finished,
                outcome is Ok,
            ),
            final(self).pool == old(self).pool,
            final(self).max_connections == old(self).max_connections,
    {
        self.circuit_breaker.call(started, finished, outcome)
    }

    /// The outcome of marking every id offline, through the breaker.
    pub fn set_all_offline<E>(&mut self, started: u64, finished: u64, outcome: Result<(), E>) -> (r:
        Result<(), E>)
        ensures
            r == outcome,
            final(self).circuit_breaker == old(self).circuit_breaker.after_call(
                started,
                finished,
                outcome is Ok,
            ),
            final(self).pool == old(self).pool,
            final(self).max_connections == old(self).max_connections,
    {
        self.circuit_breaker.call(started, finished, outcome)
    }

    /// The outcome of marking `ids` offline in one transaction. An empty list
    /// succeeds without a transaction: `outcome` is not looked at and the
    /// breaker stays as it is.
    pub fn batch_set_offline<E>(
        &mut self,
        ids: &Vec<String>,
        started: u64,
        finished: u64,
        outcome: Result<(), E>,
    ) -> (r: Result<(), E>)
        ensures
            ids@.len() == 0 ==> r is Ok && final(self).circuit_breaker == old(self).circuit_breaker,
            ids@.len() > 0 ==> r == outcome && final(self).circuit_breaker == old(
                self,
            ).circuit_breaker.after_call(started, finished, outcome is Ok),
            final(self).pool == old(self).pool,
            final(self).max_connections == old(self).max_connections,
    {
        if ids.len() == 0 {
            return Ok(());
        }
        self.circuit_breaker.call(started, finished, outcome)
    }
}

} // verus!
