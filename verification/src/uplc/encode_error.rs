//! What can go wrong when flat-encoding a program.
use vstd::prelude::*;

use crate::text::{append_decimal, decimal};
use vstd::string::StringExecFns;
use core::convert::Infallible;

verus! {

#[verifier::external_type_specification]
#[verifier::external_body]
#[verifier::reject_recursive_types(E)]
pub struct ExCborEncodeError<E>(minicbor::encode::Error<E>);

/// A failure to flat-encode a program.
pub enum FlatEncodeError {
    /// A value does not fit in the number of bits given to it.
    Overflow { byte: u8, num_bits: usize },
    /// The buffer does not end on a byte boundary.
    BufferNotByteAligned,
    /// BLS12-381 constants have no flat encoding.
    BlsElementNotSupported,
    /// Encoding a CBOR part failed.
    EncodeCbor(minicbor::encode::Error<Infallible>),
}

/// The message of an error; that of a CBOR error is the encoder's own.
pub open spec fn error_message(e: FlatEncodeError) -> Seq<char> {
    match e {
        FlatEncodeError::Overflow { byte, num_bits } => "Overflow detected, cannot fit "@ + decimal(byte as nat)
            + " in "@ + decimal(num_bits as nat) + " bits."@,
        FlatEncodeError::BufferNotByteAligned => "Buffer is not byte aligned"@,
        FlatEncodeError::BlsElementNotSupported => "Cannot encode BLS12-381 constants"@,
        FlatEncodeError::EncodeCbor(e) => cbor_encode_error_text(e),
    }
}

/// The message that a CBOR encoding error displays.
pub uninterp spec fn cbor_encode_error_text(e: minicbor::encode::Error<Infallible>) -> Seq<char>;

/// The message of a CBOR encoding error, with its `Display` implementation
/// (through `to_string`).
///
/// Trusted: the message is a function of the error alone, named
/// `cbor_encode_error_text`; the text itself is the encoder's own.
#[verifier::external_body]
fn cbor_error_message(e: &minicbor::encode::Error<Infallible>) -> (m: String)
    ensures
        m@ == cbor_encode_error_text(*e),
{
    e.to_string()
}

impl From<minicbor::encode::Error<Infallible>> for FlatEncodeError {
    fn from(e: minicbor::encode::Error<Infallible>) -> (r: Self) {
        FlatEncodeError::EncodeCbor(e)
    }
}

impl vstd::std_specs::convert::FromSpecImpl<minicbor::encode::Error<Infallible>> for FlatEncodeError {
    open spec fn obeys_from_spec() -> bool {
        true
    }

    open spec fn from_spec(e: minicbor::encode::Error<Infallible>) -> FlatEncodeError {
        FlatEncodeError::EncodeCbor(e)
    }
}

impl FlatEncodeError {
    /// The message of the error.
    pub fn message(&self) -> (m: String)
        ensures
            m@ == error_message(*self),
    {
        match self {
            FlatEncodeError::Overflow { byte, num_bits } => {
                let mut m = "Overflow detected, cannot fit ".to_owned();
                append_decimal(&mut m, *byte as u64);
                m.append(" in ");
                append_decimal(&mut m, *num_bits as u64);
                m.append(" bits.");
                m
            },
            FlatEncodeError::BufferNotByteAligned => "Buffer is not byte aligned".to_owned(),
            FlatEncodeError::BlsElementNotSupported => "Cannot encode BLS12-381 constants".to_owned(),
            FlatEncodeError::EncodeCbor(e) => cbor_error_message(e),
        }
    }
}

} // verus!
