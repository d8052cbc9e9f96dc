use vstd::prelude::*;

verus! {

/// `mio::Token` carries the `usize` that identifies one registration; the
/// wake handle created by a registration call reports events under it.
#[verifier::external_type_specification]
pub struct ExToken(mio::Token);

/// `mio::Registry` is the registration handle of one poll instance; the
/// library only passes it through to `mio::Waker::new`.
#[verifier::external_type_specification]
#[verifier::external_body]
pub struct ExRegistry(mio::Registry);

/// `mio::Interest` is accepted by the registration calls and ignored: a
/// wake always signals readability.
#[verifier::external_type_specification]
#[verifier::external_body]
pub struct ExInterest(mio::Interest);

/// `std::io::Error` reports a failure to create a wake handle.
#[verifier::external_type_specification]
#[verifier::external_body]
pub struct ExIoError(std::io::Error);

} // verus!
