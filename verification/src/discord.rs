//! Calls into serenity, the Discord library, each behind a contract read off
//! its source.
use vstd::prelude::*;

verus! {

/// The bit of Discord's permission set that stands for Administrator.
pub open spec fn administrator_bit() -> u64 {
    8
}

/// The permission bits that an applicant receives on their own channel:
/// View Channel, Send Messages and Read Message History.
pub open spec fn applicant_access_bits() -> u64 {
    68608
}

/// Whether a permission set, given by its bits, contains Administrator.
///
/// Calls `Permissions::administrator` of serenity, which is
/// `self.contains(Permissions::ADMINISTRATOR)` with `ADMINISTRATOR = 1 << 3`.
#[verifier::external_body]
pub(crate) fn grants_administrator(bits: u64) -> (granted: bool)
    ensures
        granted == (bits & administrator_bit() == administrator_bit()),
{
    serenity::all::Permissions::from_bits_retain(bits).administrator()
}

/// The bits of `VIEW_CHANNEL | SEND_MESSAGES | READ_MESSAGE_HISTORY`, serenity's
/// constants `1 << 10`, `1 << 11` and `1 << 16`.
#[verifier::external_body]
pub(crate) fn applicant_access() -> (bits: u64)
    ensures
        bits == applicant_access_bits(),
{
    (serenity::all::Permissions::VIEW_CHANNEL | serenity::all::Permissions::SEND_MESSAGES
        | serenity::all::Permissions::READ_MESSAGE_HISTORY).bits()
}

/// The creation time of a Discord account, in seconds since 1970, as read off
/// its id (a snowflake).
pub open spec fn snowflake_seconds(id: u64) -> int {
    ((id as int) / 4194304 + 1420070400000) / 1000
}

/// Calls `UserId::new(id).created_at().unix_timestamp()`: serenity computes
/// `(id >> 22) + 1_420_070_400_000` milliseconds, and chrono's `timestamp`
/// rounds that down to seconds. `UserId::new` panics on 0, hence the
/// requirement.
#[verifier::external_body]
pub(crate) fn account_created_at(id: u64) -> (seconds: i64)
    requires
        id != 0,
    ensures
        seconds == snowflake_seconds(id),
{
    serenity::all::UserId::new(id).created_at().unix_timestamp()
}

/// The largest value that `current_unix_time` is claimed to return.
pub open spec fn latest_time() -> int {
    10_000_000_000_000
}

/// Calls `Timestamp::now().unix_timestamp()`. With serenity's `chrono`
/// feature this reads `Utc::now()`, which counts whole seconds since 1970 as a
/// non-negative value and fails on anything past chrono's last year, 262142;
/// so the value lies between 0 and `latest_time()`. Which value comes back
/// depends on the clock and is not stated.
#[verifier::external_body]
pub(crate) fn current_unix_time() -> (seconds: i64)
    ensures
        0 <= seconds <= latest_time(),
{
    serenity::all::Timestamp::now().unix_timestamp()
}

} // verus!
