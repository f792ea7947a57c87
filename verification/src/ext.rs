//! Declarations of the outside types that the library carries, and the
//! trusted wrappers of the outside calls that it makes.
//!
//! Each item here is trusted without proof; its doc comment says what is
//! claimed of the outside code.

use vstd::prelude::*;
use crate::state::Timestamp;

verus! {

/// `uuid::Uuid`, carried as an opaque value (game, command and event ids).
#[verifier::external_type_specification]
#[verifier::external_body]
pub struct ExUuid(uuid::Uuid);

/// `anyhow::Error`, carried as an opaque error value (failures reported by
/// the publisher and broadcaster ports).
#[verifier::external_type_specification]
#[verifier::external_body]
pub struct ExAnyhowError(anyhow::Error);

/// `core::fmt::Formatter`, the sink that `Debug` writes to.
#[verifier::external_type_specification]
#[verifier::external_body]
pub struct ExFormatter<'a>(core::fmt::Formatter<'a>);

/// `core::fmt::Error`, the failure a `Debug` writer reports.
#[verifier::external_type_specification]
#[verifier::external_body]
pub struct ExFmtError(core::fmt::Error);

/// Calls `anyhow::Error::context`, which wraps an error under a message
/// that its `Display` shows first. Nothing is claimed: the error is opaque.
#[verifier::external_body]
pub(crate) fn with_context(e: anyhow::Error, message: &'static str) -> anyhow::Error {
    e.context(message)
}

/// Calls `uuid::Uuid::new_v4`, which returns a freshly drawn random
/// version-4 UUID. Nothing is claimed of the value: it rests on chance.
#[verifier::external_body]
pub(crate) fn random_uuid() -> uuid::Uuid {
    uuid::Uuid::new_v4()
}

/// Calls `chrono::Utc::now`, which reads the system clock, and hands back the
/// instant as whole seconds since the Unix epoch and the nanoseconds past
/// that second. Claimed: the nanoseconds are below one second (`now` builds
/// its value from `SystemTime::subsec_nanos`). Nothing else is claimed: the
/// value rests on the time. (`Utc::now` panics when the system clock reads a
/// time before the Unix epoch; no argument decides that.)
#[verifier::external_body]
pub(crate) fn utc_now() -> (r: Timestamp)
    ensures
        r.nanos < 1_000_000_000,
{
    let now = chrono::Utc::now();
    Timestamp { secs: now.timestamp(), nanos: now.timestamp_subsec_nanos() }
}

/// The text that `String::from_utf8_lossy` makes of some bytes: the bytes
/// decoded as UTF-8, with each invalid sequence replaced by U+FFFD.
pub uninterp spec fn utf8_lossy(bytes: Seq<u8>) -> Seq<char>;

/// Calls `String::from_utf8_lossy` and takes the text as an owned `String`.
/// Claimed: the text is `utf8_lossy` of the bytes, a function of the bytes
/// alone.
#[verifier::external_body]
pub(crate) fn lossy_string(bytes: &[u8]) -> (r: String)
    ensures
        r@ == utf8_lossy(bytes@),
{
    String::from_utf8_lossy(bytes).into_owned()
}

} // verus!
