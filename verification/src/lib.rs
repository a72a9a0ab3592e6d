//! A verified implementation of a length-prefixed, type-tagged (TLV) binary
//! protocol: a closed taxonomy of typed field identifiers, a recursive TLV
//! node codec, and a packet envelope with XOR obfuscation and request/response
//! correlation.
pub mod binary_reader;
pub mod binary_writer;
pub mod bytes;
pub mod error;
pub mod model;
pub mod packet;
mod strings;
pub mod taxonomy;
pub mod tlv;
