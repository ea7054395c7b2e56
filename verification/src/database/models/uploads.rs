use vstd::prelude::*;
use crate::clock::{EARLIEST_TIMESTAMP, LATEST_TIMESTAMP};

verus! {

/// How long, in seconds, a freshly generated upload slot stays open.
pub const UPLOAD_WINDOW_SECS: i64 = 600;

/// A row of the `uploads` table: a slot identified by `uuid` that accepts
/// one file until `expiration` (a Unix timestamp); `getted` records that the
/// file has been received.
#[derive(Debug)]
pub struct Uploads {
    pub uuid: u128,
    pub expiration: i64,
    pub getted: bool,
}

/// A slot is expired once the clock has passed its expiration time.
pub open spec fn is_expired(expiration: i64, now: i64) -> bool {
    now > expiration
}

/// A slot takes a file while it is neither expired nor already filled.
pub open spec fn accepts_file(expiration: i64, getted: bool, now: i64) -> bool {
    !is_expired(expiration, now) && !getted
}

/// The expiration time of a slot created at `now`.
pub open spec fn expiration_after(now: i64) -> int {
    now + UPLOAD_WINDOW_SECS
}

/// The expiration time to store for a slot created at `now`.
pub fn expiration_for(now: i64) -> (res: i64)
    requires
        EARLIEST_TIMESTAMP <= now <= LATEST_TIMESTAMP,
    ensures
        res == expiration_after(now),
        res == now + 600,
{
    now + UPLOAD_WINDOW_SECS
}

impl Uploads {
    /// Whether the slot has expired at `now`.
    pub fn expired_at(&self, now: i64) -> (res: bool)
        ensures
            res == is_expired(self.expiration, now),
            res == (now > self.expiration),
    {
        now > self.expiration
    }

    /// Whether the slot takes a file at `now`.
    pub fn accepts_file_at(&self, now: i64) -> (res: bool)
        ensures
            res == accepts_file(self.expiration, self.getted, now),
            res == (now <= self.expiration && !self.getted),
    {
        !(now > self.expiration || self.getted)
    }
}

/// A slot expires exactly ten minutes (600 seconds) after it is created,
/// and takes a file exactly while the clock has not passed its expiration
/// and it is not filled; it is expired exactly once the clock has passed.
pub proof fn lemma_slot_window(created: i64, expiration: i64, getted: bool, now: i64)
    ensures
        expiration_after(created) == created + 600,
        accepts_file(expiration, getted, now) == (now <= expiration && !getted),
        is_expired(expiration, now) == (now > expiration),
        UPLOAD_WINDOW_SECS == 600,
{
}

} // verus!
