//! A ledger certificate together with the protocol version that governs its
//! encoding for scripts.
use vstd::prelude::*;

use pallas_primitives::conway::Certificate as PallasCertificate;

verus! {

#[verifier::external_type_specification]
#[verifier::external_body]
pub struct ExPallasCertificate(PallasCertificate);

/// A borrowed ledger certificate with the protocol version that governs how
/// scripts see it: protocol 9 omits the deposit of the newer registration
/// certificates, a quirk that protocol 10 fixes.
#[derive(Debug, Clone, Copy)]
pub struct Certificate<'a> {
    pub protocol_version: (u64, u64),
    pub certificate: &'a PallasCertificate,
}

impl<'a> core::ops::Deref for Certificate<'a> {
    type Target = PallasCertificate;

    fn deref(&self) -> (c: &PallasCertificate)
        ensures
            c == self.certificate,
    {
        self.certificate
    }
}

} // verus!
