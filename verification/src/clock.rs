//! The current time (`chrono`) and fresh identifiers (`uuid`).
use vstd::prelude::*;

verus! {

/// The last second `chrono` can represent: 262142-12-31T23:59:59 UTC.
pub const MAX_UTC_SECS: i64 = 8210266876799;

/// An instant in UTC: whole seconds since the Unix epoch and the nanoseconds past them.
#[derive(Debug, Clone, Copy, PartialEq, Eq)]
pub struct UtcTime {
    pub secs: i64,
    pub nanos: u32,
}

impl UtcTime {
    /// An instant at or after the epoch that `chrono::DateTime<Utc>` can hold, without a
    /// leap second.
    pub open spec fn valid(self) -> bool {
        &&& 0 <= self.secs <= MAX_UTC_SECS
        &&& self.nanos < 1_000_000_000
    }
}

/// The text `DateTime<Utc>::to_string` gives for the instant `secs`.`nanos`.
pub uninterp spec fn utc_display(secs: i64, nanos: u32) -> Seq<char>;

/// `Local::now().timestamp()`: the current Unix time in seconds. `chrono` builds it from the
/// system clock's seconds since the epoch (it panics on a clock set before 1970) and refuses
/// instants past its last representable second, so the result lies between the two. Which
/// second it is depends on the clock and is left open.
#[verifier::external_body]
pub fn local_now_timestamp() -> (res: i64)
    ensures
        0 <= res <= MAX_UTC_SECS,
{
    chrono::Local::now().timestamp()
}

/// `Utc::now()`, taken apart into seconds and nanoseconds (`timestamp` and
/// `timestamp_subsec_nanos`). As above the instant lies in `chrono`'s range, and the
/// nanoseconds come from the system clock's sub-second part, below one second.
#[verifier::external_body]
pub fn utc_now() -> (res: UtcTime)
    ensures
        res.valid(),
{
    let now = chrono::Utc::now();
    UtcTime { secs: now.timestamp(), nanos: now.timestamp_subsec_nanos() }
}

/// `DateTime::<Utc>::from_timestamp(secs, nanos)` (which is `Some` for every valid instant)
/// shown with `to_string`.
#[verifier::external_body]
pub fn utc_to_string(t: UtcTime) -> (res: String)
    requires
        t.valid(),
    ensures
        res@ == utc_display(t.secs, t.nanos),
{
    chrono::DateTime::from_timestamp(t.secs, t.nanos).unwrap().to_string()
}

/// A lowercase hexadecimal digit.
pub open spec fn is_lower_hex(c: char) -> bool {
    ('0' <= c && c <= '9') || ('a' <= c && c <= 'f')
}

/// The hyphenated text of a random (version 4, RFC 4122 variant) UUID: 36 characters,
/// hyphens at 8, 13, 18 and 23, lowercase hexadecimal elsewhere, the version digit `4` at
/// 14 and one of `8`, `9`, `a`, `b` at 19.
pub open spec fn is_uuid_v4_text(s: Seq<char>) -> bool {
    &&& s.len() == 36
    &&& forall|i: int|
        0 <= i < 36 ==> if i == 8 || i == 13 || i == 18 || i == 23 {
            #[trigger] s[i] == '-'
        } else {
            is_lower_hex(s[i])
        }
    &&& s[14] == '4'
    &&& (s[19] == '8' || s[19] == '9' || s[19] == 'a' || s[19] == 'b')
}

/// `Uuid::new_v4().to_string()`: a fresh random identifier. `new_v4` forces the version
/// nibble to 4 and the variant bits to `10`, and `to_string` writes the hyphenated lowercase
/// form; which random bits fill the rest is left open.
#[verifier::external_body]
pub fn new_uuid_string() -> (res: String)
    ensures
        is_uuid_v4_text(res@),
{
    uuid::Uuid::new_v4().to_string()
}

} // verus!
