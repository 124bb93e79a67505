//! The calls that leave this crate. Each item states what the verifier is asked
//! to believe about code it cannot read.

use crate::text::hex_lower;
use md5::{Digest, Md5};
use rand::rngs::ThreadRng;
use rand::Rng;
use std::time::{Duration, SystemTime, SystemTimeError};
use vstd::prelude::*;

verus! {

/// The MD5 digest of a message, as computed by the `md-5` crate.
pub uninterp spec fn md5_digest(message: Seq<u8>) -> Seq<u8>;

/// Calls `Md5::digest`. Believed: the sixteen bytes returned are the MD5 digest
/// of `message`, a function of the message alone.
#[verifier::external_body]
pub(crate) fn md5_of(message: &[u8]) -> (digest: [u8; 16])
    ensures
        digest@ == md5_digest(message@),
{
    Md5::digest(message).into()
}

/// Calls `hex::encode`. Believed: the string is the lowercase hexadecimal
/// rendering of `bytes`, two characters per byte.
#[verifier::external_body]
pub(crate) fn hex_encode(bytes: &[u8]) -> (text: String)
    ensures
        text@ == hex_lower(bytes@),
{
    hex::encode(bytes)
}

/// The handle to the random number generator of the running thread.
#[verifier::external_type_specification]
#[verifier::external_body]
pub struct ExThreadRng(ThreadRng);

/// `rand::thread_rng` hands out the generator of the running thread. Nothing
/// is claimed of it. It takes no argument; it panics where the system has no
/// randomness to seed the generator with.
pub assume_specification[ rand::thread_rng ]() -> (generator: ThreadRng)
;

/// Calls `Rng::gen_range` on the inclusive range from zero to `high`, which is
/// never empty. Believed: the number drawn lies in that range. Which number it
/// is differs from call to call.
#[verifier::external_body]
pub(crate) fn random_up_to(generator: &mut ThreadRng, high: u64) -> (drawn: u64)
    ensures
        drawn <= high,
{
    generator.gen_range(0..=high)
}

/// A reading of the system clock.
#[verifier::external_type_specification]
#[verifier::external_body]
pub struct ExSystemTime(SystemTime);

/// What the system clock reports when a moment lies before the one it is
/// measured from.
#[verifier::external_type_specification]
#[verifier::external_body]
pub struct ExSystemTimeError(SystemTimeError);

/// `SystemTime::now` reads the system clock. Nothing is claimed of the reading.
pub assume_specification[ SystemTime::now ]() -> (moment: SystemTime)
;

/// Calls `SystemTime::duration_since` with the Unix epoch as the earlier
/// moment. Nothing is claimed of the outcome: it fails where the clock stands
/// before the epoch.
#[verifier::external_body]
pub(crate) fn since_epoch(moment: &SystemTime) -> (elapsed: Result<Duration, SystemTimeError>) {
    moment.duration_since(SystemTime::UNIX_EPOCH)
}

/// `Duration::as_secs` gives the whole seconds of a duration. Nothing is
/// claimed of the number, since nothing is known of the duration.
pub assume_specification[ Duration::as_secs ](duration: &Duration) -> (seconds: u64)
;

} // verus!
