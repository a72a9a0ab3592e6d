//! The protocol's error taxonomy.
use vstd::prelude::*;

verus! {

/// Everything that can go wrong while decoding untrusted wire bytes,
/// building a node tree, or reading a typed value out of a node.
///
/// Decode-path errors are returned, never panicked, since decoding operates
/// on possibly attacker-controlled bytes.
#[derive(Clone, Copy, Debug, PartialEq, Eq, Structural)]
pub enum Error {
    /// The buffer is shorter than a declared or required length.
    Truncated,
    /// A 32-bit wire value matches no field identifier of the closed taxonomy.
    UnknownFieldId,
    /// A 32-bit wire value matches no packet kind.
    UnknownPacketKind,
    /// A result field holds a 32-bit value that names no known result.
    UnknownResultCode,
    /// A typed accessor was invoked against a different stored value variant.
    TypeMismatch,
    /// A typed accessor was invoked on a node that carries no scalar value.
    NoValue,
    /// An encryption flag was set, or a reserved value-kind was met on the
    /// wire: the feature is declared but unsupported, so the operation fails
    /// closed instead of proceeding.
    UnsupportedFeature,
    /// A child was appended to a node whose value-kind is not `Group`.
    NotAGroup,
    /// A string payload is not valid UTF-8.
    InvalidUtf8,
    /// An envelope lacks a field that the operation needs, such as the
    /// method name or request identifier used for correlation.
    MissingField,
}

} // verus!
