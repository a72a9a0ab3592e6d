//! Primitive writers: append canonical wire bytes to a growable buffer.
use crate::bytes::{be32, be64};
use crate::packet::PacketType;
use crate::taxonomy::TlvType;
use vstd::prelude::*;
use vstd::utf8::encode_utf8;

verus! {

/// Namespace for the primitive writers.
pub struct BinaryWriter;

impl BinaryWriter {
    /// Appends one byte: canonical `1` for true, `0` for false.
    pub fn write_bool(storage: &mut Vec<u8>, data: bool)
        ensures
            final(storage)@ == old(storage)@ + seq![if data { 1u8 } else { 0u8 }],
    {
        storage.push(if data { 1 } else { 0 });
        assert(final(storage)@ =~= old(storage)@ + seq![if data { 1u8 } else { 0u8 }]);
    }

    /// Appends the 4 big-endian bytes of a 32-bit unsigned integer.
    pub fn write_dword(storage: &mut Vec<u8>, data: u32)
        ensures
            final(storage)@ == old(storage)@ + be32(data),
    {
        storage.push(((data >> 24) & 0xff) as u8);
        storage.push(((data >> 16) & 0xff) as u8);
        storage.push(((data >> 8) & 0xff) as u8);
        storage.push((data & 0xff) as u8);
        assert(final(storage)@ =~= old(storage)@ + be32(data));
    }

    /// Appends the 8 big-endian bytes of a 64-bit unsigned integer.
    pub fn write_qword(storage: &mut Vec<u8>, data: u64)
        ensures
            final(storage)@ == old(storage)@ + be64(data),
    {
        storage.push(((data >> 56) & 0xff) as u8);
        storage.push(((data >> 48) & 0xff) as u8);
        storage.push(((data >> 40) & 0xff) as u8);
        storage.push(((data >> 32) & 0xff) as u8);
        storage.push(((data >> 24) & 0xff) as u8);
        storage.push(((data >> 16) & 0xff) as u8);
        storage.push(((data >> 8) & 0xff) as u8);
        storage.push((data & 0xff) as u8);
        assert(final(storage)@ =~= old(storage)@ + be64(data));
    }

    /// Appends the UTF-8 bytes of a string followed by one terminating NUL
    /// byte.
    pub fn write_string(storage: &mut Vec<u8>, data: String)
        ensures
            final(storage)@ == old(storage)@ + encode_utf8(data@) + seq![0u8],
    {
        let bs: &[u8] = data.as_str().as_bytes();
        Self::write_bytes(storage, bs);
        storage.push(0);
        assert(final(storage)@ =~= old(storage)@ + encode_utf8(data@) + seq![0u8]);
    }

    /// Appends a raw byte run, no terminator.
    pub fn write_bytes(storage: &mut Vec<u8>, data: &[u8])
        ensures
            final(storage)@ == old(storage)@ + data@,
    {
        let n = data.len();
        let mut i: usize = 0;
        while i < n
            invariant
                i <= n,
                n == data@.len(),
                storage@ == old(storage)@ + data@.subrange(0, i as int),
            decreases n - i,
        {
            storage.push(data[i]);
            assert(storage@ =~= old(storage)@ + data@.subrange(0, i + 1));
            i = i + 1;
        }
        assert(storage@ =~= old(storage)@ + data@);
    }

    /// Appends the 4-byte wire value of a packet kind.
    pub fn write_packet_type(storage: &mut Vec<u8>, packet_type: PacketType)
        ensures
            final(storage)@ == old(storage)@ + be32(packet_type.code()),
    {
        Self::write_dword(storage, packet_type.to_code());
    }

    /// Appends the 4-byte wire value of a field identifier.
    pub fn write_tlv_type(storage: &mut Vec<u8>, tlv_type: TlvType)
        ensures
            final(storage)@ == old(storage)@ + be32(tlv_type.code()),
    {
        Self::write_dword(storage, tlv_type.to_code());
    }
}

} // verus!
