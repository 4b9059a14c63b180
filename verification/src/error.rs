//! The errors that the library hands to its callers.

use vstd::prelude::*;
use crate::wire::ConversionError;

verus! {

/// The bus library's error, as a remote call or a signal hands it over. The
/// library carries such a value through and never looks inside.
#[verifier::external_type_specification]
#[verifier::external_body]
pub struct ExBusError(zbus::Error);

/// Why a module could not produce a value.
#[derive(Debug, PartialEq)]
pub enum ModuleError {
    /// The subscription ended before a value arrived.
    WatchEnded,
    /// A value arrived and could not be decoded.
    Conversion(ConversionError),
    /// A remote call failed; the bus's own error is inside.
    Remote(zbus::Error),
    /// A reply arrived that no call was waiting for.
    UnexpectedReply,
}

} // verus!
