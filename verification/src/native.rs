//! The few values and calls the bridge takes from outside itself. Verus
//! believes the contracts in this file; nothing here is proved.

use vstd::prelude::*;
use vstd::string::StringSliceAdditionalSpecFns;
use vstd::utf8::valid_utf8;

verus! {

/// `libc::EEXIST`, the status by which the engine reports that a link it was
/// asked to make exists already. libc defines it per target, and not with
/// the same number on all of them, so nothing is claimed of its value.
#[verifier::external_body]
pub(crate) fn already_exists_status() -> (status: i32) {
    libc::EEXIST
}

/// `jack_sys::JackCaptureLatency`, which jack-sys defines as 0.
#[verifier::external_body]
pub(crate) fn capture_latency_mode() -> (mode: u32)
    ensures
        mode == 0,
{
    jack_sys::JackCaptureLatency
}

/// `jack_sys::JackPlaybackLatency`, which jack-sys defines as 1.
#[verifier::external_body]
pub(crate) fn playback_latency_mode() -> (mode: u32)
    ensures
        mode == 1,
{
    jack_sys::JackPlaybackLatency
}

/// `core::str::from_utf8`: the bytes as text where they are well-formed
/// UTF-8, and nothing where they are not. The text it returns is made of
/// exactly the bytes it was given.
#[verifier::external_body]
pub(crate) fn str_from_utf8(bytes: &[u8]) -> (text: Option<&str>)
    ensures
        text is Some <==> valid_utf8(bytes@),
        text matches Some(s) ==> s.spec_bytes() == bytes@,
{
    match core::str::from_utf8(bytes) {
        Ok(s) => Some(s),
        Err(_) => None,
    }
}

} // verus!
