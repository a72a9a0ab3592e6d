//! Primitive readers: consume wire bytes at a cursor position.
//!
//! Every reader checks the buffer bound itself and fails with
//! `Error::Truncated` instead of reading past the end; on any failure the
//! cursor is left where it was.
use crate::bytes::{be32_val, be64_val};
use crate::error::Error;
use crate::packet::PacketType;
use crate::taxonomy::TlvType;
use vstd::prelude::*;
use vstd::utf8::{decode_utf8, valid_utf8};

verus! {

/// Namespace for the primitive readers.
pub struct BinaryReader;

impl BinaryReader {
    /// Reads one byte as a boolean: any non-zero byte is true.
    pub fn read_bool(storage: &Vec<u8>, position: &mut usize) -> (r: Result<bool, Error>)
        ensures
            *old(position) + 1 <= storage@.len() ==> r == Ok::<bool, Error>(
                storage@[*old(position) as int] != 0,
            ) && *final(position) == *old(position) + 1,
            *old(position) + 1 > storage@.len() ==> r == Err::<bool, Error>(Error::Truncated)
                && *final(position) == *old(position),
    {
        let pos = *position;
        if pos >= storage.len() {
            return Err(Error::Truncated);
        }
        let b = storage[pos];
        *position = pos + 1;
        Ok(b != 0)
    }

    /// Reads a 4-byte big-endian 32-bit unsigned integer.
    pub fn read_dword(storage: &Vec<u8>, position: &mut usize) -> (r: Result<u32, Error>)
        ensures
            *old(position) + 4 <= storage@.len() ==> r == Ok::<u32, Error>(
                be32_val(storage@.subrange(*old(position) as int, *old(position) + 4)),
            ) && *final(position) == *old(position) + 4,
            *old(position) + 4 > storage@.len() ==> r == Err::<u32, Error>(Error::Truncated)
                && *final(position) == *old(position),
    {
        let pos = *position;
        if pos > storage.len() || storage.len() - pos < 4 {
            return Err(Error::Truncated);
        }
        let v = ((storage[pos] as u32) << 24) | ((storage[pos + 1] as u32) << 16) | ((storage[pos
            + 2] as u32) << 8) | (storage[pos + 3] as u32);
        *position = pos + 4;
        proof {
            let s = storage@.subrange(pos as int, pos + 4);
            assert(s[0] == storage@[pos as int] && s[1] == storage@[pos + 1] && s[2] == storage@[pos
                + 2] && s[3] == storage@[pos + 3]);
        }
        Ok(v)
    }

    /// Reads an 8-byte big-endian 64-bit unsigned integer.
    pub fn read_qword(storage: &Vec<u8>, position: &mut usize) -> (r: Result<u64, Error>)
        ensures
            *old(position) + 8 <= storage@.len() ==> r == Ok::<u64, Error>(
                be64_val(storage@.subrange(*old(position) as int, *old(position) + 8)),
            ) && *final(position) == *old(position) + 8,
            *old(position) + 8 > storage@.len() ==> r == Err::<u64, Error>(Error::Truncated)
                && *final(position) == *old(position),
    {
        let pos = *position;
        if pos > storage.len() || storage.len() - pos < 8 {
            return Err(Error::Truncated);
        }
        let v = ((storage[pos] as u64) << 56) | ((storage[pos + 1] as u64) << 48) | ((storage[pos
            + 2] as u64) << 40) | ((storage[pos + 3] as u64) << 32) | ((storage[pos
            + 4] as u64) << 24) | ((storage[pos + 5] as u64) << 16) | ((storage[pos
            + 6] as u64) << 8) | (storage[pos + 7] as u64);
        *position = pos + 8;
        proof {
            let s = storage@.subrange(pos as int, pos + 8);
            assert(s[0] == storage@[pos as int] && s[1] == storage@[pos + 1] && s[2] == storage@[pos
                + 2] && s[3] == storage@[pos + 3] && s[4] == storage@[pos + 4] && s[5] == storage@[
            pos + 5] && s[6] == storage@[pos + 6] && s[7] == storage@[pos + 7]);
        }
        Ok(v)
    }

    /// Reads a NUL-terminated UTF-8 string whose declared length `length`
    /// includes the trailing NUL: decodes `length - 1` bytes as UTF-8 and
    /// advances the cursor by `length`.
    pub fn read_string(storage: &Vec<u8>, position: &mut usize, length: u32) -> (r: Result<
        String,
        Error,
    >)
        ensures
            length < 1 || *old(position) + length > storage@.len() ==> r == Err::<String, Error>(
                Error::Truncated,
            ) && *final(position) == *old(position),
            length >= 1 && *old(position) + length <= storage@.len() && valid_utf8(
                storage@.subrange(*old(position) as int, *old(position) + length - 1),
            ) ==> (r matches Ok(s) && s@ == decode_utf8(
                storage@.subrange(*old(position) as int, *old(position) + length - 1),
            )) && *final(position) == *old(position) + length,
            length >= 1 && *old(position) + length <= storage@.len() && !valid_utf8(
                storage@.subrange(*old(position) as int, *old(position) + length - 1),
            ) ==> r == Err::<String, Error>(Error::InvalidUtf8) && *final(position) == *old(position),
    {
        let pos = *position;
        if length < 1 {
            return Err(Error::Truncated);
        }
        let len = length as usize;
        if pos > storage.len() || storage.len() - pos < len {
            return Err(Error::Truncated);
        }
        let bytes = vstd::slice::slice_subrange(storage.as_slice(), pos, pos + len - 1);
        match crate::strings::bytes_to_string(bytes) {
            Some(s) => {
                *position = pos + len;
                Ok(s)
            },
            None => Err(Error::InvalidUtf8),
        }
    }

    /// Reads a raw byte run of the given length, no terminator.
    pub fn read_bytes(storage: &Vec<u8>, position: &mut usize, length: u32) -> (r: Result<
        Vec<u8>,
        Error,
    >)
        ensures
            *old(position) + length <= storage@.len() ==> (r matches Ok(v) && v@
                == storage@.subrange(*old(position) as int, *old(position) + length)) && *final(position) == *old(position) + length,
            *old(position) + length > storage@.len() ==> r == Err::<Vec<u8>, Error>(
                Error::Truncated,
            ) && *final(position) == *old(position),
    {
        let pos = *position;
        let len = length as usize;
        if pos > storage.len() || storage.len() - pos < len {
            return Err(Error::Truncated);
        }
        let bytes = vstd::slice::slice_subrange(storage.as_slice(), pos, pos + len);
        let v = vstd::slice::slice_to_vec(bytes);
        *position = pos + len;
        Ok(v)
    }

    /// Reads a 4-byte wire value and looks it up in the closed field
    /// identifier taxonomy; an unrecognized value is rejected.
    pub fn read_tlv_type(storage: &Vec<u8>, position: &mut usize) -> (r: Result<TlvType, Error>)
        ensures
            *old(position) + 4 > storage@.len() ==> r == Err::<TlvType, Error>(Error::Truncated)
                && *final(position) == *old(position),
            *old(position) + 4 <= storage@.len() ==> match TlvType::spec_from_code(
                be32_val(storage@.subrange(*old(position) as int, *old(position) + 4)),
            ) {
                Some(t) => r == Ok::<TlvType, Error>(t) && *final(position) == *old(position) + 4,
                None => r == Err::<TlvType, Error>(Error::UnknownFieldId) && *final(position)
                    == *old(position),
            },
    {
        let pos = *position;
        match Self::read_dword(storage, position) {
            Err(e) => Err(e),
            Ok(c) => match TlvType::from_code(c) {
                Some(t) => Ok(t),
                None => {
                    *position = pos;
                    Err(Error::UnknownFieldId)
                },
            },
        }
    }

    /// Reads a 4-byte wire value and looks it up among the declared packet
    /// kinds; an unrecognized value is rejected.
    pub fn read_packet_type(storage: &Vec<u8>, position: &mut usize) -> (r: Result<
        PacketType,
        Error,
    >)
        ensures
            *old(position) + 4 > storage@.len() ==> r == Err::<PacketType, Error>(Error::Truncated)
                && *final(position) == *old(position),
            *old(position) + 4 <= storage@.len() ==> match PacketType::spec_from_code(
                be32_val(storage@.subrange(*old(position) as int, *old(position) + 4)),
            ) {
                Some(t) => r == Ok::<PacketType, Error>(t) && *final(position) == *old(position)
                    + 4,
                None => r == Err::<PacketType, Error>(Error::UnknownPacketKind) && *final(position)
                    == *old(position),
            },
    {
        let pos = *position;
        match Self::read_dword(storage, position) {
            Err(e) => Err(e),
            Ok(c) => match PacketType::from_code(c) {
                Some(t) => Ok(t),
                None => {
                    *position = pos;
                    Err(Error::UnknownPacketKind)
                },
            },
        }
    }
}

} // verus!
