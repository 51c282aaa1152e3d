//! Decoding of register values, done by the `aarch64_esr_decoder` crate.
//!
//! What the decoder returns for a value is not stated here: it is the
//! decoder's to define. Each of its functions has a name in ghost code, and
//! the contracts of this library speak of those names.

use crate::args::Mode;
use crate::field::{Field, FieldModel};
use vstd::prelude::*;

verus! {

/// Why a value cannot be decoded.
#[derive(Clone, Copy, Debug, PartialEq, Eq, Structural)]
pub enum DecodeFault {
    /// A field that must be zero holds `res0`.
    InvalidRes0 { res0: u64 },
    /// The exception class `ec` is not defined.
    InvalidEc { ec: u64 },
    /// The fault status code `fsc` is not defined.
    InvalidFsc { fsc: u64 },
    /// The synchronous error type `set` is not defined.
    InvalidSet { set: u64 },
    /// The asynchronous error type `aet` is not defined.
    InvalidAet { aet: u64 },
    /// The addressing mode `am` is not defined.
    InvalidAm { am: u64 },
    /// The syndrome `iss` is not defined for a trapped LD64B or ST64B.
    InvalidLd64bIss { iss: u64 },
}

/// A field as `aarch64_esr_decoder` returns it.
#[verifier::external_type_specification]
#[verifier::external_body]
pub struct ExFieldInfo(aarch64_esr_decoder::FieldInfo);

/// An error as `aarch64_esr_decoder` returns it.
#[verifier::external_type_specification]
#[verifier::external_body]
pub struct ExDecodeError(aarch64_esr_decoder::DecodeError);

/// The number that `aarch64_esr_decoder::parse_number` reads from a text,
/// or `None` where it reads none.
pub uninterp spec fn parsed_number(text: Seq<char>) -> Option<u64>;

/// What `aarch64_esr_decoder::decode` returns for an Exception Syndrome
/// Register value.
pub uninterp spec fn esr_decoding(value: u64) -> Result<Seq<FieldModel>, DecodeFault>;

/// What `aarch64_esr_decoder::decode_midr` returns for a Main ID Register
/// value.
pub uninterp spec fn midr_decoding(value: u64) -> Result<Seq<FieldModel>, DecodeFault>;

/// What `aarch64_esr_decoder::decode_smccc` returns for an SMCCC function
/// ID.
pub uninterp spec fn smccc_decoding(value: u64) -> Result<Seq<FieldModel>, DecodeFault>;

/// The model of a decoding: the models of the fields, or the error.
pub open spec fn decoded_model(decoded: Result<Vec<Field>, DecodeFault>) -> Result<
    Seq<FieldModel>,
    DecodeFault,
> {
    match decoded {
        Ok(fields) => Ok(fields.deep_view()),
        Err(error) => Err(error),
    }
}

/// What the decoder returns for a value of the given register.
pub open spec fn decoding(mode: Mode, value: u64) -> Result<Seq<FieldModel>, DecodeFault> {
    match mode {
        Mode::Esr => esr_decoding(value),
        Mode::Midr => midr_decoding(value),
        Mode::Smccc => smccc_decoding(value),
    }
}

/// Copies a field of `aarch64_esr_decoder`, with the fields nested in it,
/// into a [`Field`]. Nothing is claimed of the copy.
#[verifier::external_body]
fn field_from(raw: &aarch64_esr_decoder::FieldInfo) -> Field {
    Field {
        name: raw.name.to_string(),
        long_name: raw.long_name.map(|name| name.to_string()),
        start: raw.start,
        width: raw.width,
        value: raw.value,
        description: raw.description.clone(),
        subfields: raw.subfields.iter().map(field_from).collect(),
    }
}

/// Copies an error of `aarch64_esr_decoder` into a [`DecodeFault`], variant
/// by variant. Nothing is claimed of the copy.
#[verifier::external_body]
fn error_from(raw: aarch64_esr_decoder::DecodeError) -> DecodeFault {
    match raw {
        aarch64_esr_decoder::DecodeError::InvalidRes0 { res0 } => DecodeFault::InvalidRes0 { res0 },
        aarch64_esr_decoder::DecodeError::InvalidEc { ec } => DecodeFault::InvalidEc { ec },
        aarch64_esr_decoder::DecodeError::InvalidFsc { fsc } => DecodeFault::InvalidFsc { fsc },
        aarch64_esr_decoder::DecodeError::InvalidSet { set } => DecodeFault::InvalidSet { set },
        aarch64_esr_decoder::DecodeError::InvalidAet { aet } => DecodeFault::InvalidAet { aet },
        aarch64_esr_decoder::DecodeError::InvalidAm { am } => DecodeFault::InvalidAm { am },
        aarch64_esr_decoder::DecodeError::InvalidLd64bIss { iss } => DecodeFault::InvalidLd64bIss {
            iss,
        },
    }
}

/// Calls `aarch64_esr_decoder::parse_number`, which reads a decimal number
/// or, behind `0x`, a hexadecimal one. The result is the number it read, by
/// its name; an error of any kind is `None`.
#[verifier::external_body]
pub(crate) fn parse_number(text: &str) -> (value: Option<u64>)
    ensures
        value == parsed_number(text@),
{
    aarch64_esr_decoder::parse_number(text).ok()
}

/// Calls `aarch64_esr_decoder::decode`. The result is what the decoder
/// returned, by its name, the fields and the error copied into the
/// library's types.
#[verifier::external_body]
pub(crate) fn decode_esr(value: u64) -> (decoded: Result<Vec<Field>, DecodeFault>)
    ensures
        decoded_model(decoded) == esr_decoding(value),
{
    match aarch64_esr_decoder::decode(value) {
        Ok(fields) => Ok(fields.iter().map(field_from).collect()),
        Err(error) => Err(error_from(error)),
    }
}

/// Calls `aarch64_esr_decoder::decode_midr`. The result is what the decoder
/// returned, by its name, the fields and the error copied into the
/// library's types.
#[verifier::external_body]
pub(crate) fn decode_midr(value: u64) -> (decoded: Result<Vec<Field>, DecodeFault>)
    ensures
        decoded_model(decoded) == midr_decoding(value),
{
    match aarch64_esr_decoder::decode_midr(value) {
        Ok(fields) => Ok(fields.iter().map(field_from).collect()),
        Err(error) => Err(error_from(error)),
    }
}

/// Calls `aarch64_esr_decoder::decode_smccc`. The result is what the
/// decoder returned, by its name, the fields and the error copied into the
/// library's types.
#[verifier::external_body]
pub(crate) fn decode_smccc(value: u64) -> (decoded: Result<Vec<Field>, DecodeFault>)
    ensures
        decoded_model(decoded) == smccc_decoding(value),
{
    match aarch64_esr_decoder::decode_smccc(value) {
        Ok(fields) => Ok(fields.iter().map(field_from).collect()),
        Err(error) => Err(error_from(error)),
    }
}

/// Decodes a value as the given register.
pub fn decode_value(mode: Mode, value: u64) -> (decoded: Result<Vec<Field>, DecodeFault>)
    ensures
        decoded_model(decoded) == decoding(mode, value),
{
    match mode {
        Mode::Esr => decode_esr(value),
        Mode::Midr => decode_midr(value),
        Mode::Smccc => decode_smccc(value),
    }
}

} // verus!
