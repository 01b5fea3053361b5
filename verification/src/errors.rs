//! Failure kinds of the encoding pipeline.
//!
//! Every failure is fatal for the input at hand: no partial output is
//! produced and nothing is retried.

use vstd::prelude::*;

verus! {

/// The reasons an extraction, serialization or parsing step can fail.
#[derive(Debug, Clone)]
pub enum PrepError {
    /// A buffer's length does not match its fixed declared width.
    ShapeMismatch,
    /// The report body is not the expected TD10 variant.
    VariantMismatch,
    /// The module-identity or TCB-level section is absent from the collateral.
    MissingCollateralSection,
    /// No module identity's id equals the computed expected tag.
    NoMatchingIdentity,
    /// A token of the flat argument stream is not a valid integer literal;
    /// the offending token is carried along.
    InvalidNumericToken(String),
    /// A field-element text value is malformed or exceeds the representable
    /// range of the field.
    InvalidHexOrRangeOverflow,
}

impl PrepError {
    /// A short fixed description of the failure kind.
    pub fn message(&self) -> (r: &'static str)
        ensures
            r@.len() > 0,
    {
        proof {
            reveal_strlit("buffer length does not match its declared width");
            reveal_strlit("report body is not the TD10 variant");
            reveal_strlit("collateral lacks a module-identity or TCB-level section");
            reveal_strlit("no module identity matches the expected tag");
            reveal_strlit("token is not a valid integer literal");
            reveal_strlit("hex value is malformed or out of field range");
        }
        match self {
            PrepError::ShapeMismatch => "buffer length does not match its declared width",
            PrepError::VariantMismatch => "report body is not the TD10 variant",
            PrepError::MissingCollateralSection => "collateral lacks a module-identity or TCB-level section",
            PrepError::NoMatchingIdentity => "no module identity matches the expected tag",
            PrepError::InvalidNumericToken(_) => "token is not a valid integer literal",
            PrepError::InvalidHexOrRangeOverflow => "hex value is malformed or out of field range",
        }
    }
}

} // verus!
