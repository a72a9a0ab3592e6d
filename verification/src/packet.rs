//! The packet envelope: a flat ordered collection of top-level TLV nodes and
//! a packet kind, framed by a fixed header and obfuscated by a repeating
//! 4-byte XOR key, plus request/response correlation.
use crate::binary_reader::BinaryReader;
use crate::binary_writer::BinaryWriter;
use crate::bytes::{
    be32, be32_val, lemma_be32_round_trip, lemma_be32_zero, lemma_xor_involutive,
    lemma_xor_slice_aligned, lemma_xor_zero_byte, xor_seq,
};
use crate::error::Error;
use crate::model::{
    lemma_encode_err_list_snoc, lemma_encode_err_list_split, lemma_encode_list_elem_len,
    lemma_encode_list_snoc, lemma_list_round_trip, spec_encode_err_list,
    spec_encode_list, spec_parse_list, spec_parse_node, wf_list, TlvValueView, TlvView,
};
use crate::taxonomy::TlvType;
use crate::tlv::{lemma_view_list_index, lemma_view_list_push, Tlv, TlvValue};
use vstd::prelude::*;

verus! {

/// The outcome code a response may carry in its result field.
#[derive(Clone, Copy, Debug, PartialEq, Eq, Structural)]
pub enum PacketResult {
    Success,
    InvalidFunction,
    InvalidData,
    CallNotImplemented,
    BadArguments,
    ErrorAlreadyExists,
}

impl PacketResult {
    /// The stable 32-bit wire value of this result code.
    pub open spec fn code(self) -> u32 {
        match self {
            PacketResult::Success => 0,
            PacketResult::InvalidFunction => 1,
            PacketResult::InvalidData => 13,
            PacketResult::CallNotImplemented => 120,
            PacketResult::BadArguments => 160,
            PacketResult::ErrorAlreadyExists => 183,
        }
    }

    /// The result code denoted by a 32-bit wire value, if any.
    pub open spec fn spec_from_code(c: u32) -> Option<PacketResult> {
        if c == 0 {
            Some(PacketResult::Success)
        } else if c == 1 {
            Some(PacketResult::InvalidFunction)
        } else if c == 13 {
            Some(PacketResult::InvalidData)
        } else if c == 120 {
            Some(PacketResult::CallNotImplemented)
        } else if c == 160 {
            Some(PacketResult::BadArguments)
        } else if c == 183 {
            Some(PacketResult::ErrorAlreadyExists)
        } else {
            None
        }
    }

    /// The 32-bit wire value of this result code.
    pub fn to_code(self) -> (c: u32)
        ensures
            c == self.code(),
    {
        match self {
            PacketResult::Success => 0,
            PacketResult::InvalidFunction => 1,
            PacketResult::InvalidData => 13,
            PacketResult::CallNotImplemented => 120,
            PacketResult::BadArguments => 160,
            PacketResult::ErrorAlreadyExists => 183,
        }
    }

    /// Looks a 32-bit wire value up among the declared result codes.
    pub fn from_code(c: u32) -> (r: Option<PacketResult>)
        ensures
            r == Self::spec_from_code(c),
    {
        match c {
            0 => Some(PacketResult::Success),
            1 => Some(PacketResult::InvalidFunction),
            13 => Some(PacketResult::InvalidData),
            120 => Some(PacketResult::CallNotImplemented),
            160 => Some(PacketResult::BadArguments),
            183 => Some(PacketResult::ErrorAlreadyExists),
            _ => None,
        }
    }
}

/// The direction/kind tag carried in the packet header.
#[derive(Clone, Copy, Debug, PartialEq, Eq, Structural)]
pub enum PacketType {
    Request,
    Response,
    PlainRequest,
    PlainResponse,
}

impl PacketType {
    /// The stable 32-bit wire value of this packet kind.
    pub open spec fn code(self) -> u32 {
        match self {
            PacketType::Request => 0,
            PacketType::Response => 1,
            PacketType::PlainRequest => 10,
            PacketType::PlainResponse => 11,
        }
    }

    /// The packet kind denoted by a 32-bit wire value, if any.
    pub open spec fn spec_from_code(c: u32) -> Option<PacketType> {
        if c == 0 {
            Some(PacketType::Request)
        } else if c == 1 {
            Some(PacketType::Response)
        } else if c == 10 {
            Some(PacketType::PlainRequest)
        } else if c == 11 {
            Some(PacketType::PlainResponse)
        } else {
            None
        }
    }

    /// The 32-bit wire value of this packet kind.
    pub fn to_code(self) -> (c: u32)
        ensures
            c == self.code(),
    {
        match self {
            PacketType::Request => 0,
            PacketType::Response => 1,
            PacketType::PlainRequest => 10,
            PacketType::PlainResponse => 11,
        }
    }

    /// Looks a 32-bit wire value up among the declared packet kinds.
    pub fn from_code(c: u32) -> (r: Option<PacketType>)
        ensures
            r == Self::spec_from_code(c),
    {
        match c {
            0 => Some(PacketType::Request),
            1 => Some(PacketType::Response),
            10 => Some(PacketType::PlainRequest),
            11 => Some(PacketType::PlainResponse),
            _ => None,
        }
    }
}

/// Every packet kind is recovered exactly by looking its own wire value up.
pub proof fn lemma_packet_type_from_code_of_code(pt: PacketType)
    ensures
        PacketType::spec_from_code(pt.code()) == Some(pt),
{
}

/// Size of the fixed packet header: XOR key, session identifier, encryption
/// flag, body length and packet kind.
pub const HEADER_SIZE: u32 = 4 + 16 + 4 + 4 + 4;

/// Offset of the encryption flag within the header: it follows the XOR key
/// and the session identifier.
pub const ENC_LENGTH: u32 = 4 + 16;

/// Model of a packet envelope: its kind and its top-level nodes in the order
/// they were added.
pub struct PacketView {
    pub packet_type: PacketType,
    pub fields: Seq<TlvView>,
}

/// Well-formedness of a packet model: every field is well formed and the
/// body length fits the 32-bit header field.
pub open spec fn wf_packet(p: PacketView) -> bool {
    wf_list(p.fields) && spec_encode_list(p.fields).len() + 8 <= u32::MAX
}

/// The un-obfuscated wire image of a packet: a zeroed key slot, the 16-byte
/// session identifier, a zero encryption flag, the body length (TLV bytes
/// plus the kind and length fields), the packet kind, then the concatenated
/// node images.  On the wire every byte of this image is XOR-ed with the
/// 4-byte key, so the first four wire bytes carry the key itself.
pub open spec fn spec_packet_plain(p: PacketView, session_guid: Seq<u8>) -> Seq<u8> {
    be32(0) + session_guid + be32(0) + be32((spec_encode_list(p.fields).len() + 8) as u32) + be32(
        p.packet_type.code(),
    ) + spec_encode_list(p.fields)
}

/// The de-obfuscated fixed header of a wire buffer: its first 32 bytes,
/// XOR-ed with the key recovered from its first 4 bytes.
pub open spec fn spec_header(s: Seq<u8>) -> Seq<u8>
    recommends
        s.len() >= HEADER_SIZE,
{
    xor_seq(s.subrange(0, HEADER_SIZE as int), s.subrange(0, 4))
}

/// The encryption flag declared by a wire buffer.
pub open spec fn spec_enc_flag(s: Seq<u8>) -> u32
    recommends
        s.len() >= HEADER_SIZE,
{
    be32_val(spec_header(s).subrange(ENC_LENGTH as int, ENC_LENGTH + 4))
}

/// What a decoder must produce from a wire buffer holding a packet at its
/// start: the packet model, the session identifier, and the count of
/// consumed bytes — or the error with which decoding must fail.  A non-zero
/// encryption flag is rejected before anything else is interpreted, since
/// decryption is unsupported and decoding must fail closed.
pub open spec fn spec_parse_packet(s: Seq<u8>) -> Result<(PacketView, Seq<u8>, int), Error> {
    if s.len() < HEADER_SIZE {
        Err(Error::Truncated)
    } else {
        let k = s.subrange(0, 4);
        let header = spec_header(s);
        if spec_enc_flag(s) != 0 {
            Err(Error::UnsupportedFeature)
        } else {
            let body_len = be32_val(header.subrange(24, 28)) as int;
            if body_len < 8 {
                Err(Error::Truncated)
            } else {
                match PacketType::spec_from_code(be32_val(header.subrange(28, 32))) {
                    None => Err(Error::UnknownPacketKind),
                    Some(pt) => {
                        let tlv_len = body_len - 8;
                        if HEADER_SIZE + tlv_len > s.len() {
                            Err(Error::Truncated)
                        } else {
                            let body = xor_seq(
                                s.subrange(HEADER_SIZE as int, HEADER_SIZE + tlv_len),
                                k,
                            );
                            match spec_parse_list(body) {
                                Ok(fields) => Ok(
                                    (
                                        PacketView { packet_type: pt, fields },
                                        header.subrange(4, 20),
                                        HEADER_SIZE + tlv_len,
                                    ),
                                ),
                                Err(e) => Err(e),
                            }
                        }
                    },
                }
            }
        }
    }
}

/// The first node with the given field identifier among the fields, if any.
pub open spec fn spec_first_field(ms: Seq<TlvView>, t: TlvType) -> Option<TlvView>
    decreases ms,
{
    if ms.len() == 0 {
        None
    } else if ms[0].tlv_type == t {
        Some(ms[0])
    } else {
        spec_first_field(ms.drop_first(), t)
    }
}

/// The fields with every node of the given field identifier removed, order
/// otherwise kept.
pub open spec fn spec_remove_field(ms: Seq<TlvView>, t: TlvType) -> Seq<TlvView>
    decreases ms,
{
    if ms.len() == 0 {
        seq![]
    } else if ms[0].tlv_type == t {
        spec_remove_field(ms.drop_first(), t)
    } else {
        seq![ms[0]] + spec_remove_field(ms.drop_first(), t)
    }
}

/// A packet envelope: a kind and the top-level nodes, in insertion order.
/// The node list realises a multimap from field identifier to nodes: an
/// identifier may repeat, and lookups scan in order.
#[derive(Debug, PartialEq, Eq)]
pub struct Packet {
    pub packet_type: PacketType,
    pub tlvs: Vec<Tlv>,
}

impl View for Packet {
    type V = PacketView;

    open spec fn view(&self) -> PacketView {
        PacketView { packet_type: self.packet_type, fields: Tlv::view_list(self.tlvs@) }
    }
}

/// Relies on rand::random: four bytes drawn from the thread-local random
/// generator; nothing is promised of their values.
#[verifier::external_body]
fn generate_xor_key() -> [u8; 4] {
    rand::random::<[u8; 4]>()
}

/// Relies on uuid::Uuid::new_v4 and its simple formatter: a fresh random
/// identifier rendered as exactly 32 hexadecimal characters, no separators.
/// Nothing is promised of which identifier comes back.
#[verifier::external_body]
fn fresh_request_id() -> (r: String)
    ensures
        r@.len() == 32,
{
    uuid::Uuid::new_v4().simple().to_string()
}

impl Packet {
    /// XOR-obfuscates a buffer in place with a repeating 4-byte key.
    /// Applying it twice with the same key restores the buffer.
    pub fn xor(target: &mut Vec<u8>, xor_key: [u8; 4])
        ensures
            final(target)@ == xor_seq(old(target)@, xor_key@),
    {
        let n = target.len();
        let mut out: Vec<u8> = Vec::new();
        let mut i: usize = 0;
        while i < n
            invariant
                i <= n,
                n == old(target)@.len(),
                target@ == old(target)@,
                out@.len() == i,
                forall|j: int|
                    0 <= j < i ==> out@[j] == (old(target)@[j] ^ xor_key@[j % 4]),
            decreases n - i,
        {
            let b = target[i];
            out.push(b ^ xor_key[i % 4]);
            i = i + 1;
        }
        *target = out;
        proof {
            assert(final(target)@ =~= xor_seq(old(target)@, xor_key@));
        }
    }

    /// Appends a top-level node.  The envelope is always an appendable
    /// container, so this cannot fail.
    pub fn add_tlv(&mut self, tlv: Tlv)
        ensures
            final(self)@ == (PacketView {
                fields: old(self)@.fields.push(tlv@),
                ..old(self)@
            }),
    {
        let ghost pre = self.tlvs@;
        self.tlvs.push(tlv);
        proof {
            lemma_view_list_push(pre, tlv);
        }
    }

    /// Builds and appends a top-level string node.
    pub fn add_string(&mut self, tlv_type: TlvType, value: String)
        ensures
            final(self)@ == (PacketView {
                fields: old(self)@.fields.push(
                    (TlvView {
                        tlv_type,
                        value: Some(TlvValueView::Str(value@)),
                        children: seq![],
                    }),
                ),
                ..old(self)@
            }),
    {
        self.add_tlv(Tlv::new(tlv_type, TlvValue::Str(value)));
    }

    /// Builds and appends a top-level 32-bit node.
    pub fn add_uint32(&mut self, tlv_type: TlvType, value: u32)
        ensures
            final(self)@ == (PacketView {
                fields: old(self)@.fields.push(
                    (TlvView {
                        tlv_type,
                        value: Some(TlvValueView::UInt(value)),
                        children: seq![],
                    }),
                ),
                ..old(self)@
            }),
    {
        self.add_tlv(Tlv::new(tlv_type, TlvValue::UInt(value)));
    }

    /// Builds and appends a top-level 64-bit node.
    pub fn add_uint64(&mut self, tlv_type: TlvType, value: u64)
        ensures
            final(self)@ == (PacketView {
                fields: old(self)@.fields.push(
                    (TlvView {
                        tlv_type,
                        value: Some(TlvValueView::ULongInt(value)),
                        children: seq![],
                    }),
                ),
                ..old(self)@
            }),
    {
        self.add_tlv(Tlv::new(tlv_type, TlvValue::ULongInt(value)));
    }

    /// Builds and appends a top-level boolean node.
    pub fn add_bool(&mut self, tlv_type: TlvType, value: bool)
        ensures
            final(self)@ == (PacketView {
                fields: old(self)@.fields.push(
                    (TlvView {
                        tlv_type,
                        value: Some(TlvValueView::Bool(value)),
                        children: seq![],
                    }),
                ),
                ..old(self)@
            }),
    {
        self.add_tlv(Tlv::new(tlv_type, TlvValue::Bool(value)));
    }

    /// Builds and appends a top-level byte-run node.
    pub fn add_bytes(&mut self, tlv_type: TlvType, value: Vec<u8>)
        ensures
            final(self)@ == (PacketView {
                fields: old(self)@.fields.push(
                    (TlvView {
                        tlv_type,
                        value: Some(TlvValueView::Bytes(value@)),
                        children: seq![],
                    }),
                ),
                ..old(self)@
            }),
    {
        self.add_tlv(Tlv::new(tlv_type, TlvValue::Bytes(value)));
    }

    /// Builds and appends a top-level empty group node.
    pub fn add_group(&mut self, tlv_type: TlvType)
        ensures
            final(self)@ == (PacketView {
                fields: old(self)@.fields.push(
                    (TlvView { tlv_type, value: None, children: seq![] }),
                ),
                ..old(self)@
            }),
    {
        let tlv = Tlv { tlv_type, value: None, tlvs: Vec::new() };
        proof {
            assert(tlv@.children =~= seq![]);
        }
        self.add_tlv(tlv);
    }

    /// The first top-level node carrying the given field identifier, if any.
    #[verifier::loop_isolation(false)]
    pub fn get_tlv(&self, tlv_type: TlvType) -> (r: Option<&Tlv>)
        ensures
            match spec_first_field(self@.fields, tlv_type) {
                Some(m) => r matches Some(tlv) && tlv@ == m,
                None => r is None,
            },
    {
        let n = self.tlvs.len();
        proof {
            lemma_view_list_index(self.tlvs@);
            assert(self@.fields.subrange(0, n as int) =~= self@.fields);
        }
        let mut i: usize = 0;
        while i < n
            invariant
                i <= n,
                spec_first_field(self@.fields, tlv_type) == spec_first_field(
                    self@.fields.subrange(i as int, n as int),
                    tlv_type,
                ),
            decreases n - i,
        {
            if self.tlvs[i].tlv_type == tlv_type {
                proof {
                    assert(self@.fields.subrange(i as int, n as int)[0] == self@.fields[i as int]);
                }
                return Some(&self.tlvs[i]);
            }
            proof {
                assert(self@.fields.subrange(i as int, n as int)[0] == self@.fields[i as int]);
                assert(self@.fields.subrange(i as int, n as int).drop_first()
                    =~= self@.fields.subrange(i + 1, n as int));
            }
            i = i + 1;
        }
        proof {
            assert(self@.fields.subrange(n as int, n as int) =~= Seq::<TlvView>::empty());
        }
        None
    }

    /// Removes every top-level node with the given field identifier, keeping
    /// the order of the rest.
    #[verifier::loop_isolation(false)]
    fn remove_field(&mut self, tlv_type: TlvType)
        ensures
            final(self)@.packet_type == old(self)@.packet_type,
            final(self)@.fields == spec_remove_field(old(self)@.fields, tlv_type),
    {
        let mut rest: Vec<Tlv> = Vec::new();
        core::mem::swap(&mut self.tlvs, &mut rest);
        proof {
            assert(Tlv::view_list(self.tlvs@) =~= Seq::<TlvView>::empty());
            assert(Tlv::view_list(self.tlvs@) + spec_remove_field(
                Tlv::view_list(rest@),
                tlv_type,
            ) =~= spec_remove_field(Tlv::view_list(rest@), tlv_type));
        }
        while rest.len() > 0
            invariant
                spec_remove_field(old(self)@.fields, tlv_type) == Tlv::view_list(self.tlvs@)
                    + spec_remove_field(Tlv::view_list(rest@), tlv_type),
                self.packet_type == old(self).packet_type,
            decreases rest.len(),
        {
            let ghost pre_rest = rest@;
            let ghost pre_kept = self.tlvs@;
            let node = rest.remove(0);
            proof {
                lemma_view_list_index(pre_rest);
                lemma_view_list_index(rest@);
                assert(pre_rest.drop_first() =~= rest@);
                assert(Tlv::view_list(pre_rest).drop_first() =~= Tlv::view_list(rest@));
                assert(Tlv::view_list(pre_rest)[0] == node@);
            }
            if node.tlv_type == tlv_type {
                proof {
                    assert(Tlv::view_list(pre_rest).len() > 0);
                }
            } else {
                self.tlvs.push(node);
                proof {
                    lemma_view_list_push(pre_kept, node);
                    assert((Tlv::view_list(pre_kept) + (seq![node@] + spec_remove_field(
                        Tlv::view_list(rest@),
                        tlv_type,
                    ))) =~= (Tlv::view_list(self.tlvs@) + spec_remove_field(
                        Tlv::view_list(rest@),
                        tlv_type,
                    )));
                }
            }
        }
        proof {
            assert(Tlv::view_list(rest@) =~= Seq::<TlvView>::empty());
            assert(spec_remove_field(Tlv::view_list(rest@), tlv_type) =~= Seq::<TlvView>::empty());
            assert(Tlv::view_list(self.tlvs@) + Seq::<TlvView>::empty() =~= Tlv::view_list(
                self.tlvs@,
            ));
        }
    }

    /// Builds a fresh outbound request: kind `Request`, carrying the given
    /// method name and a newly generated 32-character request identifier,
    /// and nothing else.
    pub fn new(method: String) -> (r: Packet)
        ensures
            r@.packet_type == PacketType::Request,
            r@.fields.len() == 2,
            r@.fields[0] == (TlvView {
                tlv_type: TlvType::Method,
                value: Some(TlvValueView::Str(method@)),
                children: seq![],
            }),
            r@.fields[1].tlv_type == TlvType::RequestId,
            r@.fields[1].children == Seq::<TlvView>::empty(),
            r@.fields[1].value matches Some(TlvValueView::Str(rid)) && rid.len() == 32,
    {
        let mut instance = Packet { packet_type: PacketType::Request, tlvs: Vec::new() };
        proof {
            assert(instance@.fields =~= Seq::<TlvView>::empty());
        }
        let ghost mnode = TlvView {
            tlv_type: TlvType::Method,
            value: Some(TlvValueView::Str(method@)),
            children: seq![],
        };
        instance.set_method(method);
        proof {
            assert(instance@.fields =~= seq![mnode]);
        }
        instance.set_request_id(fresh_request_id());
        proof {
            assert(seq![mnode].drop_first() =~= Seq::<TlvView>::empty());
            assert(spec_remove_field(Seq::<TlvView>::empty(), TlvType::RequestId) =~= Seq::<
                TlvView,
            >::empty());
            assert(spec_remove_field(seq![mnode], TlvType::RequestId) =~= seq![mnode]);
            assert(instance@.fields[0] == mnode);
            assert(instance@.fields[1].children =~= Seq::<TlvView>::empty());
        }
        instance
    }

    /// Replaces every request-identifier field by one string node holding
    /// the given identifier, appended after the other fields.
    pub fn set_request_id(&mut self, request_id: String)
        ensures
            final(self)@.packet_type == old(self)@.packet_type,
            final(self)@.fields == spec_remove_field(old(self)@.fields, TlvType::RequestId).push(
                (TlvView {
                    tlv_type: TlvType::RequestId,
                    value: Some(TlvValueView::Str(request_id@)),
                    children: seq![],
                }),
            ),
    {
        self.remove_field(TlvType::RequestId);
        self.add_string(TlvType::RequestId, request_id);
    }

    /// Replaces every method field by one string node holding the given
    /// method name, appended after the other fields.
    pub fn set_method(&mut self, method: String)
        ensures
            final(self)@.packet_type == old(self)@.packet_type,
            final(self)@.fields == spec_remove_field(old(self)@.fields, TlvType::Method).push(
                (TlvView {
                    tlv_type: TlvType::Method,
                    value: Some(TlvValueView::Str(method@)),
                    children: seq![],
                }),
            ),
    {
        self.remove_field(TlvType::Method);
        self.add_string(TlvType::Method, method);
    }

    /// Replaces every result field by one 32-bit node holding the given
    /// result's wire value.
    pub fn set_result(&mut self, packet_result: PacketResult)
        ensures
            final(self)@.packet_type == old(self)@.packet_type,
            final(self)@.fields == spec_remove_field(old(self)@.fields, TlvType::ResultCode).push(
                (TlvView {
                    tlv_type: TlvType::ResultCode,
                    value: Some(TlvValueView::UInt(packet_result.code())),
                    children: seq![],
                }),
            ),
    {
        self.remove_field(TlvType::ResultCode);
        self.add_uint32(TlvType::ResultCode, packet_result.to_code());
    }

    /// Reads the request identifier out of the first request-identifier
    /// field; fails with `MissingField` when the envelope has none.
    pub fn get_request_id(&self) -> (r: Result<String, Error>)
        ensures
            match spec_first_field(self@.fields, TlvType::RequestId) {
                Some(m) => match m.value {
                    Some(TlvValueView::Str(s)) => r matches Ok(v) && v@ == s,
                    Some(_) => r == Err::<String, Error>(Error::TypeMismatch),
                    None => r == Err::<String, Error>(Error::NoValue),
                },
                None => r == Err::<String, Error>(Error::MissingField),
            },
    {
        match self.get_tlv(TlvType::RequestId) {
            Some(tlv) => tlv.value_as_string(),
            None => Err(Error::MissingField),
        }
    }

    /// Reads the method name out of the first method field; fails with
    /// `MissingField` when the envelope has none.
    pub fn get_method(&self) -> (r: Result<String, Error>)
        ensures
            match spec_first_field(self@.fields, TlvType::Method) {
                Some(m) => match m.value {
                    Some(TlvValueView::Str(s)) => r matches Ok(v) && v@ == s,
                    Some(_) => r == Err::<String, Error>(Error::TypeMismatch),
                    None => r == Err::<String, Error>(Error::NoValue),
                },
                None => r == Err::<String, Error>(Error::MissingField),
            },
    {
        match self.get_tlv(TlvType::Method) {
            Some(tlv) => tlv.value_as_string(),
            None => Err(Error::MissingField),
        }
    }

    /// Reads the result code out of the first result field and looks it up
    /// among the declared result codes.
    pub fn get_result(&self) -> (r: Result<PacketResult, Error>)
        ensures
            match spec_first_field(self@.fields, TlvType::ResultCode) {
                Some(m) => match m.value {
                    Some(TlvValueView::UInt(v)) => match PacketResult::spec_from_code(v) {
                        Some(pr) => r == Ok::<PacketResult, Error>(pr),
                        None => r == Err::<PacketResult, Error>(Error::UnknownResultCode),
                    },
                    Some(_) => r == Err::<PacketResult, Error>(Error::TypeMismatch),
                    None => r == Err::<PacketResult, Error>(Error::NoValue),
                },
                None => r == Err::<PacketResult, Error>(Error::MissingField),
            },
    {
        match self.get_tlv(TlvType::ResultCode) {
            None => Err(Error::MissingField),
            Some(tlv) => match tlv.value_as_uint32() {
                Err(e) => Err(e),
                Ok(v) => match PacketResult::from_code(v) {
                    Some(pr) => Ok(pr),
                    None => Err(Error::UnknownResultCode),
                },
            },
        }
    }

    /// Derives the response to this request: kind `Response` for a
    /// `Request`, `PlainResponse` for anything else; the method name and
    /// request identifier are copied verbatim so the peer can correlate the
    /// response, and no other field is populated.
    pub fn create_response(&self) -> (r: Result<Packet, Error>)
        ensures
            match spec_first_field(self@.fields, TlvType::RequestId) {
                Some(rm) => match rm.value {
                    Some(TlvValueView::Str(rid)) => match spec_first_field(
                        self@.fields,
                        TlvType::Method,
                    ) {
                        Some(mm) => match mm.value {
                            Some(TlvValueView::Str(m)) => r matches Ok(resp) && resp@.packet_type
                                == (if self@.packet_type == PacketType::Request {
                                PacketType::Response
                            } else {
                                PacketType::PlainResponse
                            }) && resp@.fields == seq![
                                (TlvView {
                                    tlv_type: TlvType::RequestId,
                                    value: Some(TlvValueView::Str(rid)),
                                    children: seq![],
                                }),
                                (TlvView {
                                    tlv_type: TlvType::Method,
                                    value: Some(TlvValueView::Str(m)),
                                    children: seq![],
                                }),
                            ],
                            Some(_) => r == Err::<Packet, Error>(Error::TypeMismatch),
                            None => r == Err::<Packet, Error>(Error::NoValue),
                        },
                        None => r == Err::<Packet, Error>(Error::MissingField),
                    },
                    Some(_) => r == Err::<Packet, Error>(Error::TypeMismatch),
                    None => r == Err::<Packet, Error>(Error::NoValue),
                },
                None => r == Err::<Packet, Error>(Error::MissingField),
            },
    {
        let request_id = match self.get_request_id() {
            Ok(v) => v,
            Err(e) => {
                return Err(e);
            },
        };
        let method = match self.get_method() {
            Ok(v) => v,
            Err(e) => {
                return Err(e);
            },
        };
        let packet_type = if self.packet_type == PacketType::Request {
            PacketType::Response
        } else {
            PacketType::PlainResponse
        };
        let ghost rnode = TlvView {
            tlv_type: TlvType::RequestId,
            value: Some(TlvValueView::Str(request_id@)),
            children: seq![],
        };
        let mut response = Packet { packet_type, tlvs: Vec::new() };
        proof {
            assert(response@.fields =~= Seq::<TlvView>::empty());
        }
        response.set_request_id(request_id);
        proof {
            assert(response@.fields =~= seq![rnode]);
        }
        response.set_method(method);
        proof {
            assert(seq![rnode].drop_first() =~= Seq::<TlvView>::empty());
            assert(spec_remove_field(Seq::<TlvView>::empty(), TlvType::Method) =~= Seq::<
                TlvView,
            >::empty());
            assert(spec_remove_field(seq![rnode], TlvType::Method) =~= seq![rnode]);
            assert(response@.fields =~= seq![rnode].push(response@.fields[1]));
        }
        Ok(response)
    }

    /// Encodes this packet for the wire with the given 16-byte session
    /// identifier: the fixed header, then every field in order, the whole
    /// buffer XOR-obfuscated with a freshly drawn 4-byte key.  The first
    /// four bytes of the result carry the key itself, since the key slot of
    /// the plain image is zero.  This step hides the bytes from casual
    /// inspection only; it is no cryptographic protection.
    ///
    /// Fails exactly when one of the fields cannot be encoded, with that
    /// field's error.
    #[verifier::loop_isolation(false)]
    pub fn to_raw(&self, session_guid: &[u8]) -> (r: Result<Vec<u8>, Error>)
        requires
            session_guid@.len() == 16,
            spec_encode_list(self@.fields).len() + 8 <= u32::MAX,
        ensures
            match spec_encode_err_list(self@.fields) {
                None => r matches Ok(data) && data@.len() == spec_packet_plain(
                    self@,
                    session_guid@,
                ).len() && data@ == xor_seq(
                    spec_packet_plain(self@, session_guid@),
                    data@.subrange(0, 4),
                ),
                Some(e) => r == Err::<Vec<u8>, Error>(e),
            },
    {
        let ghost fields = self@.fields;
        let mut tlv_data: Vec<u8> = Vec::new();
        let n = self.tlvs.len();
        proof {
            lemma_view_list_index(self.tlvs@);
            assert(fields.subrange(0, 0) =~= Seq::<TlvView>::empty());
            assert(tlv_data@ =~= spec_encode_list(fields.subrange(0, 0)));
        }
        let mut i: usize = 0;
        while i < n
            invariant
                i <= n,
                n == self.tlvs@.len(),
                fields.len() == n,
                spec_encode_err_list(fields.subrange(0, i as int)) is None,
                tlv_data@ == spec_encode_list(fields.subrange(0, i as int)),
            decreases n - i,
        {
            proof {
                lemma_encode_list_elem_len(fields, i as int);
            }
            match self.tlvs[i].to_raw(&mut tlv_data) {
                Ok(()) => {
                    proof {
                        assert(fields.subrange(0, i + 1) =~= fields.subrange(0, i as int).push(
                            fields[i as int],
                        ));
                        lemma_encode_list_snoc(fields.subrange(0, i as int), fields[i as int]);
                        lemma_encode_err_list_snoc(fields.subrange(0, i as int), fields[i as int]);
                    }
                    i = i + 1;
                },
                Err(e) => {
                    proof {
                        lemma_encode_err_list_split(fields, i as int);
                        assert(fields.subrange(i as int, n as int)[0] == fields[i as int]);
                        assert(spec_encode_err_list(fields) == Some(e));
                    }
                    return Err(e);
                },
            }
        }
        proof {
            assert(fields.subrange(0, n as int) =~= fields);
        }
        let mut packet_data: Vec<u8> = Vec::new();
        BinaryWriter::write_dword(&mut packet_data, 0);
        BinaryWriter::write_bytes(&mut packet_data, session_guid);
        BinaryWriter::write_dword(&mut packet_data, 0);
        BinaryWriter::write_dword(&mut packet_data, (tlv_data.len() as u32) + 8);
        BinaryWriter::write_packet_type(&mut packet_data, self.packet_type);
        BinaryWriter::write_bytes(&mut packet_data, tlv_data.as_slice());
        let ghost plain = packet_data@;
        proof {
            assert(plain =~= spec_packet_plain(self@, session_guid@));
        }
        let xor_key = generate_xor_key();
        Packet::xor(&mut packet_data, xor_key);
        proof {
            lemma_be32_zero();
            assert forall|j: int| 0 <= j < 4 implies packet_data@[j] == xor_key@[j] by {
                assert(plain[j] == 0u8);
                lemma_xor_zero_byte(xor_key@[j]);
            }
            assert(packet_data@.subrange(0, 4) =~= xor_key@);
        }
        Ok(packet_data)
    }

    /// Decodes a packet from `storage` at the cursor, exactly as
    /// [`spec_parse_packet`] of the remaining bytes prescribes: the XOR key
    /// is recovered from the first four wire bytes, the header is
    /// de-obfuscated, a non-zero encryption flag is rejected with
    /// `UnsupportedFeature` before anything else is interpreted, and the
    /// de-obfuscated body is decoded as a node list that must fill the
    /// declared body length exactly.  Returns the packet and the session
    /// identifier the peer sent.
    #[verifier::loop_isolation(false)]
    #[verifier::rlimit(80)]
    #[verifier::spinoff_prover]
    pub fn from_raw(storage: &Vec<u8>, position: &mut usize) -> (r: Result<(Packet, Vec<u8>), Error>)
        requires
            *old(position) <= storage@.len(),
        ensures
            match spec_parse_packet(
                storage@.subrange(*old(position) as int, storage@.len() as int),
            ) {
                Ok((p, sid, c)) => r matches Ok(pg) && pg.0@ == p && pg.1@ == sid && *final(position) == *old(position) + c,
                Err(e) => r == Err::<(Packet, Vec<u8>), Error>(e),
            },
    {
        let ghost pos0 = *position as int;
        let ghost s = storage@.subrange(pos0, storage@.len() as int);
        let mut header = match BinaryReader::read_bytes(storage, position, HEADER_SIZE) {
            Ok(h) => h,
            Err(e) => {
                return Err(e);
            },
        };
        proof {
            assert(header@ =~= s.subrange(0, HEADER_SIZE as int));
        }
        let xor_key: [u8; 4] = [header[0], header[1], header[2], header[3]];
        proof {
            assert(xor_key@ =~= s.subrange(0, 4));
        }
        Packet::xor(&mut header, xor_key);
        proof {
            assert(header@ == spec_header(s));
        }
        let mut header_position: usize = ENC_LENGTH as usize;
        let encryption_flag = match BinaryReader::read_dword(&header, &mut header_position) {
            Ok(v) => v,
            Err(e) => {
                return Err(e);
            },
        };
        proof {
            assert(encryption_flag == spec_enc_flag(s));
        }
        if encryption_flag != 0 {
            return Err(Error::UnsupportedFeature);
        }
        let body_len = match BinaryReader::read_dword(&header, &mut header_position) {
            Ok(v) => v,
            Err(e) => {
                return Err(e);
            },
        };
        if body_len < 8 {
            return Err(Error::Truncated);
        }
        let packet_type = match BinaryReader::read_packet_type(&header, &mut header_position) {
            Ok(t) => t,
            Err(e) => {
                return Err(e);
            },
        };
        let mut sid_position: usize = 4;
        let session_guid = match BinaryReader::read_bytes(&header, &mut sid_position, 16) {
            Ok(g) => g,
            Err(e) => {
                return Err(e);
            },
        };
        let tlv_len = body_len - 8;
        let mut packet_body = match BinaryReader::read_bytes(storage, position, tlv_len) {
            Ok(b) => b,
            Err(e) => {
                return Err(e);
            },
        };
        proof {
            assert(packet_body@ =~= s.subrange(HEADER_SIZE as int, HEADER_SIZE + tlv_len));
        }
        Packet::xor(&mut packet_body, xor_key);
        let mut packet = Packet { packet_type, tlvs: Vec::new() };
        let n = packet_body.len();
        let mut body_position: usize = 0;
        proof {
            assert(packet_body@.subrange(0, n as int) =~= packet_body@);
            assert(Tlv::view_list(packet.tlvs@) =~= Seq::<TlvView>::empty());
            match spec_parse_list(packet_body@.subrange(body_position as int, n as int)) {
                Ok(rest) => {
                    assert(Tlv::view_list(packet.tlvs@) + rest =~= rest);
                },
                Err(_) => {},
            }
        }
        while body_position < n
            invariant
                body_position <= n,
                n == packet_body@.len(),
                packet.packet_type == packet_type,
                spec_parse_list(packet_body@) == (match spec_parse_list(
                    packet_body@.subrange(body_position as int, n as int),
                ) {
                    Ok(rest) => Ok(Tlv::view_list(packet.tlvs@) + rest),
                    Err(e) => Err::<Seq<TlvView>, Error>(e),
                }),
            decreases n - body_position,
        {
            let ghost prev = body_position as int;
            let ghost pre_fields = packet.tlvs@;
            let ghost u = packet_body@.subrange(prev, n as int);
            match Tlv::from_raw(&packet_body, &mut body_position) {
                Ok(tlv) => {
                    proof {
                        crate::model::lemma_parse_node_bounds(u);
                    }
                    packet.add_tlv(tlv);
                    proof {
                        let (m, c) = spec_parse_node(u)->Ok_0;
                        crate::model::lemma_parse_list_step(u);
                        assert(u.subrange(c, u.len() as int) =~= packet_body@.subrange(
                            body_position as int,
                            n as int,
                        ));
                        match spec_parse_list(
                            packet_body@.subrange(body_position as int, n as int),
                        ) {
                            Ok(rest) => {
                                assert(Tlv::view_list(pre_fields) + (seq![m] + rest)
                                    =~= Tlv::view_list(packet.tlvs@) + rest);
                            },
                            Err(_) => {},
                        }
                    }
                },
                Err(e) => {
                    proof {
                        assert(u.len() > 0);
                        assert(spec_parse_list(u) == Err::<Seq<TlvView>, Error>(e));
                    }
                    return Err(e);
                },
            }
        }
        proof {
            assert(packet_body@.subrange(n as int, n as int) =~= Seq::<u8>::empty());
            assert(spec_parse_list(Seq::<u8>::empty()) == Ok::<Seq<TlvView>, Error>(seq![]));
            assert(Tlv::view_list(packet.tlvs@) + seq![] =~= Tlv::view_list(packet.tlvs@));
            assert(session_guid@ =~= spec_header(s).subrange(4, 20));
        }
        Ok((packet, session_guid))
    }
}

/// XOR-ing a plain image whose first four bytes are zero puts the key
/// itself into the first four wire bytes, and the de-obfuscated header is
/// the plain header.
proof fn lemma_header_recovery(plain: Seq<u8>, k: Seq<u8>)
    requires
        k.len() == 4,
        plain.len() >= HEADER_SIZE,
        plain.subrange(0, 4) == be32(0),
    ensures
        xor_seq(plain, k).subrange(0, 4) == k,
        spec_header(xor_seq(plain, k)) == plain.subrange(0, HEADER_SIZE as int),
{
    let s = xor_seq(plain, k);
    lemma_be32_zero();
    assert forall|j: int| 0 <= j < 4 implies s[j] == k[j] by {
        assert(plain.subrange(0, 4)[j] == plain[j]);
        lemma_xor_zero_byte(k[j]);
    }
    assert(s.subrange(0, 4) =~= k);
    lemma_xor_slice_aligned(plain, k, 0, HEADER_SIZE as int);
    lemma_xor_involutive(plain.subrange(0, HEADER_SIZE as int), k);
}

/// De-obfuscating the wire bytes after the header with the recovered key
/// restores the plain body bytes.
proof fn lemma_body_recovery(plain: Seq<u8>, k: Seq<u8>)
    requires
        k.len() == 4,
        plain.len() >= HEADER_SIZE,
        plain.subrange(0, 4) == be32(0),
    ensures
        xor_seq(
            xor_seq(plain, k).subrange(HEADER_SIZE as int, plain.len() as int),
            xor_seq(plain, k).subrange(0, 4),
        ) == plain.subrange(HEADER_SIZE as int, plain.len() as int),
{
    let s = xor_seq(plain, k);
    lemma_header_recovery(plain, k);
    lemma_xor_slice_aligned(plain, k, HEADER_SIZE as int, plain.len() as int);
    lemma_xor_involutive(plain.subrange(HEADER_SIZE as int, plain.len() as int), k);
}

/// Unfolds the packet parse on a buffer whose header fields are known.
proof fn lemma_parse_packet_compute(
    s: Seq<u8>,
    pt: PacketType,
    fields: Seq<TlvView>,
    sid: Seq<u8>,
    body_len: int,
)
    requires
        s.len() >= HEADER_SIZE,
        spec_enc_flag(s) == 0,
        be32_val(spec_header(s).subrange(24, 28)) == body_len,
        8 <= body_len,
        PacketType::spec_from_code(be32_val(spec_header(s).subrange(28, 32))) == Some(pt),
        HEADER_SIZE + (body_len - 8) == s.len(),
        spec_parse_list(
            xor_seq(
                s.subrange(HEADER_SIZE as int, HEADER_SIZE + (body_len - 8)),
                s.subrange(0, 4),
            ),
        ) == Ok::<Seq<TlvView>, Error>(fields),
        spec_header(s).subrange(4, 20) == sid,
    ensures
        spec_parse_packet(s) == Ok::<(PacketView, Seq<u8>, int), Error>(
            (PacketView { packet_type: pt, fields }, sid, s.len() as int),
        ),
{
}

/// Round-trip law for the envelope: decoding the obfuscated wire image of
/// any well-formed packet, under any 4-byte key, recovers the packet, the
/// session identifier, and the exact length of the image.
/// The parts of the plain wire image of a packet, by header offset.
proof fn lemma_packet_plain_parts(p: PacketView, session_guid: Seq<u8>)
    requires
        session_guid.len() == 16,
    ensures
        ({
            let plain = spec_packet_plain(p, session_guid);
            let ll = spec_encode_list(p.fields);
            &&& plain.len() == 32 + ll.len()
            &&& plain.subrange(0, 4) == be32(0)
            &&& plain.subrange(4, 20) == session_guid
            &&& plain.subrange(20, 24) == be32(0)
            &&& plain.subrange(24, 28) == be32((ll.len() + 8) as u32)
            &&& plain.subrange(28, 32) == be32(p.packet_type.code())
            &&& plain.subrange(32, plain.len() as int) == ll
        }),
{
    let plain = spec_packet_plain(p, session_guid);
    let ll = spec_encode_list(p.fields);
    assert(plain.subrange(0, 4) =~= be32(0));
    assert(plain.subrange(4, 20) =~= session_guid);
    assert(plain.subrange(20, 24) =~= be32(0));
    assert(plain.subrange(24, 28) =~= be32((ll.len() + 8) as u32));
    assert(plain.subrange(28, 32) =~= be32(p.packet_type.code()));
    assert(plain.subrange(32, plain.len() as int) =~= ll);
}

/// Round-trip law for the envelope: decoding the obfuscated wire image of
/// any well-formed packet, under any 4-byte key, recovers the packet, the
/// session identifier, and the exact length of the image.
#[verifier::rlimit(100)]
#[verifier::spinoff_prover]
pub proof fn lemma_packet_round_trip(p: PacketView, session_guid: Seq<u8>, k: Seq<u8>)
    requires
        wf_packet(p),
        session_guid.len() == 16,
        k.len() == 4,
    ensures
        spec_parse_packet(xor_seq(spec_packet_plain(p, session_guid), k)) == Ok::<
            (PacketView, Seq<u8>, int),
            Error,
        >((p, session_guid, spec_packet_plain(p, session_guid).len() as int)),
{
    let plain = spec_packet_plain(p, session_guid);
    let s = xor_seq(plain, k);
    let ll = spec_encode_list(p.fields);
    lemma_packet_plain_parts(p, session_guid);
    lemma_header_recovery(plain, k);
    lemma_body_recovery(plain, k);
    let header = spec_header(s);
    assert(s.len() == plain.len());
    assert(spec_enc_flag(s) == 0) by {
        assert(header.subrange(20, 24) =~= plain.subrange(20, 24));
        lemma_be32_round_trip(0);
    }
    assert(be32_val(header.subrange(24, 28)) == ll.len() + 8) by {
        assert(header.subrange(24, 28) =~= plain.subrange(24, 28));
        lemma_be32_round_trip((ll.len() + 8) as u32);
    }
    assert(PacketType::spec_from_code(be32_val(header.subrange(28, 32))) == Some(
        p.packet_type,
    )) by {
        assert(header.subrange(28, 32) =~= plain.subrange(28, 32));
        lemma_be32_round_trip(p.packet_type.code());
        lemma_packet_type_from_code_of_code(p.packet_type);
    }
    assert(header.subrange(4, 20) == session_guid) by {
        assert(header.subrange(4, 20) =~= plain.subrange(4, 20));
    }
    assert(spec_parse_list(
        xor_seq(s.subrange(HEADER_SIZE as int, HEADER_SIZE + ll.len()), s.subrange(0, 4)),
    ) == Ok::<Seq<TlvView>, Error>(p.fields)) by {
        assert(s.subrange(HEADER_SIZE as int, HEADER_SIZE + ll.len()) =~= s.subrange(
            HEADER_SIZE as int,
            s.len() as int,
        ));
        assert(plain.subrange(HEADER_SIZE as int, plain.len() as int) =~= ll);
        lemma_list_round_trip(p.fields);
    }
    lemma_parse_packet_compute(s, p.packet_type, p.fields, session_guid, ll.len() as int + 8);
}

/// Every successfully decoded packet is well formed — each of its fields
/// satisfies the node invariant and the whole body fits the 32-bit length
/// field — and the session identifier is exactly 16 bytes, so a decoded
/// packet can always be encoded again.
pub proof fn lemma_parse_packet_wf(s: Seq<u8>)
    ensures
        spec_parse_packet(s) matches Ok((p, sid, c)) ==> wf_packet(p) && sid.len() == 16,
{
    if spec_parse_packet(s) is Ok {
        let body_len = be32_val(spec_header(s).subrange(24, 28)) as int;
        let body = xor_seq(
            s.subrange(HEADER_SIZE as int, HEADER_SIZE + (body_len - 8)),
            s.subrange(0, 4),
        );
        crate::model::lemma_parse_list_wf(body);
    }
}

/// Fail-closed law for the unsupported encryption layer: a wire buffer
/// whose de-obfuscated encryption flag is non-zero is rejected with
/// `UnsupportedFeature`, whatever else it holds; no partially decoded
/// packet is returned.
pub proof fn lemma_encrypted_rejected(s: Seq<u8>)
    requires
        s.len() >= HEADER_SIZE,
        spec_enc_flag(s) != 0,
    ensures
        spec_parse_packet(s) == Err::<(PacketView, Seq<u8>, int), Error>(
            Error::UnsupportedFeature,
        ),
{
}

} // verus!
