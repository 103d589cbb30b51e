//! Records of what a call did, for the host's log.
//!
//! A record is a side channel: nothing that the guest receives depends on
//! it.
use crate::resolve::{Errno, ERRNO_LAST};
use vstd::prelude::*;
use vstd::string::*;

verus! {

/// What `wasi_common::wasm32::strerror` returns for an error signal.
pub uninterp spec fn errno_name(errno: u16) -> Seq<char>;

/// `wasi_common::wasm32::strerror`: the name of an error signal. The outside
/// function has a name for every signal up to `ERRNO_LAST` and panics on a
/// greater one.
#[verifier::external_body]
fn strerror(errno: u16) -> (name: &'static str)
    requires
        errno <= ERRNO_LAST,
    ensures
        name@ == errno_name(errno),
{
    wasi_common::wasm32::strerror(errno)
}

/// The name of an error signal, if it has one: the signals up to
/// `ERRNO_LAST` have, the greater ones have not.
pub fn signal_name(signal: Errno) -> (r: Option<&'static str>)
    ensures
        r.is_some() <==> signal <= ERRNO_LAST,
        r matches Some(name) ==> name@ == errno_name(signal),
{
    if signal <= ERRNO_LAST {
        Some(strerror(signal))
    } else {
        None
    }
}

/// The text that is put in front of a signal's name in the record of a
/// failed call.
pub open spec fn failure_prefix() -> Seq<char> {
    "    -> errno="@
}

/// The record of a call that failed with `signal`: the prefix followed by
/// the signal's name. A signal without a name has no record.
pub open spec fn spec_failure_record(signal: Errno) -> Option<Seq<char>> {
    if signal <= ERRNO_LAST {
        Some(failure_prefix() + errno_name(signal))
    } else {
        None
    }
}

/// The record of a call that failed with `signal`.
pub fn failure_record(signal: Errno) -> (r: Option<String>)
    ensures
        r.is_some() == spec_failure_record(signal).is_some(),
        r matches Some(text) ==> Some(text@) == spec_failure_record(signal),
{
    match signal_name(signal) {
        Some(name) => Some(String::from_str("    -> errno=").concat(name)),
        None => None,
    }
}

} // verus!
