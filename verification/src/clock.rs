use vstd::prelude::*;

verus! {

/// The smallest and largest Unix timestamps, in seconds, that a
/// `chrono::DateTime<Utc>` can hold (its years run from -262143 to 262142);
/// the current time handed to a request step lies in this range.
pub const EARLIEST_TIMESTAMP: i64 = -8_400_000_000_000;
pub const LATEST_TIMESTAMP: i64 = 8_400_000_000_000;

} // verus!
