//! The mathematical model of a TLV node tree and its wire image.
//!
//! A node is modelled as a field identifier, an optional scalar value and a
//! sequence of child models; its wire image is the `{length, field id,
//! payload}` framing described by [`spec_encode`], where `length` counts the
//! 8-byte header itself.  [`spec_parse_node`] is the exact mirror: it says,
//! for every byte sequence, either which node a decoder must produce and how
//! many bytes it consumes, or with which error it must fail.
use crate::bytes::{be32, be32_val, be64, be64_val, lemma_be32_round_trip, lemma_be64_round_trip};
use crate::error::Error;
use crate::taxonomy::{MetaType, TlvType};
use vstd::prelude::*;
use vstd::utf8::{decode_utf8, encode_utf8, valid_utf8};

verus! {

/// Model of a scalar value stored in a node.
pub enum TlvValueView {
    Bool(bool),
    UInt(u32),
    ULongInt(u64),
    Str(Seq<char>),
    Bytes(Seq<u8>),
}

/// Model of a TLV node: a field identifier, an optional scalar value, and an
/// ordered sequence of children (a field identifier may repeat).
pub struct TlvView {
    pub tlv_type: TlvType,
    pub value: Option<TlvValueView>,
    pub children: Seq<TlvView>,
}

/// The payload bytes of a node: the wire image without the 8-byte header.
///
/// Unsupported kinds get an empty payload here; they are excluded by
/// [`wf_node`] and rejected by the executable encoder.
pub open spec fn spec_payload(m: TlvView) -> Seq<u8>
    decreases m, 0int,
{
    match m.tlv_type.spec_meta() {
        MetaType::Bool => match m.value {
            Some(TlvValueView::Bool(b)) => seq![if b { 1u8 } else { 0u8 }],
            _ => seq![],
        },
        MetaType::Uint => match m.value {
            Some(TlvValueView::UInt(v)) => be32(v),
            _ => seq![],
        },
        MetaType::Qword => match m.value {
            Some(TlvValueView::ULongInt(v)) => be64(v),
            _ => seq![],
        },
        MetaType::Str => match m.value {
            Some(TlvValueView::Str(s)) => encode_utf8(s) + seq![0u8],
            _ => seq![],
        },
        MetaType::Raw => match m.value {
            Some(TlvValueView::Bytes(b)) => b,
            _ => seq![],
        },
        MetaType::Complex => match m.value {
            Some(TlvValueView::Bytes(b)) => b,
            _ => seq![],
        },
        MetaType::Group => spec_encode_list(m.children),
        _ => seq![],
    }
}

/// The full wire image of a node: a 4-byte big-endian length (payload length
/// plus 8), the 4-byte field identifier, then the payload.
pub open spec fn spec_encode(m: TlvView) -> Seq<u8>
    decreases m, 1int,
{
    be32((spec_payload(m).len() + 8) as u32) + be32(m.tlv_type.code()) + spec_payload(m)
}

/// The concatenated wire images of a sequence of nodes, in order.
pub open spec fn spec_encode_list(ms: Seq<TlvView>) -> Seq<u8>
    decreases ms, 2int,
{
    if ms.len() == 0 {
        seq![]
    } else {
        spec_encode(ms[0]) + spec_encode_list(ms.drop_first())
    }
}

/// Well-formedness of a node model: its value variant matches the kind
/// derived from its field identifier, only group nodes have children, group
/// nodes have no value, and every length field fits in 32 bits.
///
/// Exactly the well-formed nodes round-trip through encode and decode.
pub open spec fn wf_node(m: TlvView) -> bool
    decreases m, 1int,
{
    match m.tlv_type.spec_meta() {
        MetaType::Bool => m.children.len() == 0 && m.value matches Some(TlvValueView::Bool(_)),
        MetaType::Uint => m.children.len() == 0 && m.value matches Some(TlvValueView::UInt(_)),
        MetaType::Qword => m.children.len() == 0 && m.value matches Some(
            TlvValueView::ULongInt(_),
        ),
        MetaType::Str => m.children.len() == 0 && (m.value matches Some(TlvValueView::Str(s))
            && encode_utf8(s).len() + 9 <= u32::MAX),
        MetaType::Raw => m.children.len() == 0 && (m.value matches Some(TlvValueView::Bytes(b))
            && b.len() + 8 <= u32::MAX),
        MetaType::Complex => m.children.len() == 0 && (m.value matches Some(TlvValueView::Bytes(b))
            && b.len() + 8 <= u32::MAX),
        MetaType::Group => m.value is None && wf_list(m.children) && spec_encode_list(m.children).len()
            + 8 <= u32::MAX,
        _ => false,
    }
}

/// Well-formedness of a sequence of node models.
pub open spec fn wf_list(ms: Seq<TlvView>) -> bool
    decreases ms, 2int,
{
    if ms.len() == 0 {
        true
    } else {
        wf_node(ms[0]) && wf_list(ms.drop_first())
    }
}

/// What a decoder must produce from the byte sequence `s`, reading one node
/// from its start: the node model and the count of consumed bytes, or the
/// error with which decoding must fail.
///
/// Mirrors the wire contract exactly: reads past the end of the buffer fail
/// with `Truncated`, an unrecognized field identifier fails with
/// `UnknownFieldId`, the reserved kinds fail with `UnsupportedFeature`, a
/// non-UTF-8 string payload fails with `InvalidUtf8`, and a group's children
/// must consume its declared payload exactly.  A boolean payload is read as
/// non-zero-truthy, so decoding is deliberately more liberal than the
/// canonical encoder.
pub open spec fn spec_parse_node(s: Seq<u8>) -> Result<(TlvView, int), Error>
    decreases s.len(), 0int,
{
    if s.len() < 4 {
        Err(Error::Truncated)
    } else {
        let total = be32_val(s.subrange(0, 4)) as int;
        if total < 8 {
            Err(Error::Truncated)
        } else if s.len() < 8 {
            Err(Error::Truncated)
        } else {
            match TlvType::spec_from_code(be32_val(s.subrange(4, 8))) {
                None => Err(Error::UnknownFieldId),
                Some(t) => match t.spec_meta() {
                    MetaType::Bool => if s.len() < 9 {
                        Err(Error::Truncated)
                    } else {
                        Ok(
                            (
                                TlvView {
                                    tlv_type: t,
                                    value: Some(TlvValueView::Bool(s[8] != 0)),
                                    children: seq![],
                                },
                                9,
                            ),
                        )
                    },
                    MetaType::Uint => if s.len() < 12 {
                        Err(Error::Truncated)
                    } else {
                        Ok(
                            (
                                TlvView {
                                    tlv_type: t,
                                    value: Some(TlvValueView::UInt(be32_val(s.subrange(8, 12)))),
                                    children: seq![],
                                },
                                12,
                            ),
                        )
                    },
                    MetaType::Qword => if s.len() < 16 {
                        Err(Error::Truncated)
                    } else {
                        Ok(
                            (
                                TlvView {
                                    tlv_type: t,
                                    value: Some(
                                        TlvValueView::ULongInt(be64_val(s.subrange(8, 16))),
                                    ),
                                    children: seq![],
                                },
                                16,
                            ),
                        )
                    },
                    MetaType::Str => if total < 9 || total > s.len() {
                        Err(Error::Truncated)
                    } else {
                        let b = s.subrange(8, total - 1);
                        if valid_utf8(b) {
                            Ok(
                                (
                                    TlvView {
                                        tlv_type: t,
                                        value: Some(TlvValueView::Str(decode_utf8(b))),
                                        children: seq![],
                                    },
                                    total,
                                ),
                            )
                        } else {
                            Err(Error::InvalidUtf8)
                        }
                    },
                    MetaType::Raw => if total > s.len() {
                        Err(Error::Truncated)
                    } else {
                        Ok(
                            (
                                TlvView {
                                    tlv_type: t,
                                    value: Some(TlvValueView::Bytes(s.subrange(8, total))),
                                    children: seq![],
                                },
                                total,
                            ),
                        )
                    },
                    MetaType::Complex => if total > s.len() {
                        Err(Error::Truncated)
                    } else {
                        Ok(
                            (
                                TlvView {
                                    tlv_type: t,
                                    value: Some(TlvValueView::Bytes(s.subrange(8, total))),
                                    children: seq![],
                                },
                                total,
                            ),
                        )
                    },
                    MetaType::Group => if total > s.len() {
                        Err(Error::Truncated)
                    } else {
                        match spec_parse_list(s.subrange(8, total)) {
                            Ok(children) => Ok(
                                (TlvView { tlv_type: t, value: None, children }, total),
                            ),
                            Err(e) => Err(e),
                        }
                    },
                    _ => Err(Error::UnsupportedFeature),
                },
            }
        }
    }
}

/// What a decoder must produce from a byte window that holds a whole
/// sequence of nodes and nothing else: the nodes in wire order, or the first
/// error.  The window must be consumed exactly.
pub open spec fn spec_parse_list(s: Seq<u8>) -> Result<Seq<TlvView>, Error>
    decreases s.len(), 1int,
{
    if s.len() == 0 {
        Ok(seq![])
    } else {
        match spec_parse_node(s) {
            Err(e) => Err(e),
            Ok((m, c)) => if c <= 0 || c > s.len() {
                Err(Error::Truncated)
            } else {
                match spec_parse_list(s.subrange(c, s.len() as int)) {
                    Ok(rest) => Ok(seq![m] + rest),
                    Err(e) => Err(e),
                }
            },
        }
    }
}

/// The error with which encoding a node must fail, if any: reserved kinds
/// fail with `UnsupportedFeature`, a scalar node without a value with
/// `NoValue`, and a stored value whose variant does not match the node's
/// kind with `TypeMismatch`.  A group fails with its first failing child's
/// error.  Encoding succeeds exactly when this is `None`.
pub open spec fn spec_encode_err(m: TlvView) -> Option<Error>
    decreases m, 1int,
{
    match m.tlv_type.spec_meta() {
        MetaType::Bool => match m.value {
            Some(TlvValueView::Bool(_)) => None,
            Some(_) => Some(Error::TypeMismatch),
            None => Some(Error::NoValue),
        },
        MetaType::Uint => match m.value {
            Some(TlvValueView::UInt(_)) => None,
            Some(_) => Some(Error::TypeMismatch),
            None => Some(Error::NoValue),
        },
        MetaType::Qword => match m.value {
            Some(TlvValueView::ULongInt(_)) => None,
            Some(_) => Some(Error::TypeMismatch),
            None => Some(Error::NoValue),
        },
        MetaType::Str => match m.value {
            Some(TlvValueView::Str(_)) => None,
            Some(_) => Some(Error::TypeMismatch),
            None => Some(Error::NoValue),
        },
        MetaType::Raw => match m.value {
            Some(TlvValueView::Bytes(_)) => None,
            Some(_) => Some(Error::TypeMismatch),
            None => Some(Error::NoValue),
        },
        MetaType::Complex => match m.value {
            Some(TlvValueView::Bytes(_)) => None,
            Some(_) => Some(Error::TypeMismatch),
            None => Some(Error::NoValue),
        },
        MetaType::Group => spec_encode_err_list(m.children),
        _ => Some(Error::UnsupportedFeature),
    }
}

/// The first error with which encoding a node of the sequence must fail, in
/// order, if any.
pub open spec fn spec_encode_err_list(ms: Seq<TlvView>) -> Option<Error>
    decreases ms, 2int,
{
    if ms.len() == 0 {
        None
    } else {
        match spec_encode_err(ms[0]) {
            Some(e) => Some(e),
            None => spec_encode_err_list(ms.drop_first()),
        }
    }
}

/// A well-formed node encodes without error.
pub proof fn lemma_wf_encodable(m: TlvView)
    requires
        wf_node(m),
    ensures
        spec_encode_err(m) is None,
    decreases m, 1int,
{
    if m.tlv_type.spec_meta() == MetaType::Group {
        lemma_wf_list_encodable(m.children);
    }
}

/// A sequence of well-formed nodes encodes without error.
pub proof fn lemma_wf_list_encodable(ms: Seq<TlvView>)
    requires
        wf_list(ms),
    ensures
        spec_encode_err_list(ms) is None,
    decreases ms, 2int,
{
    if ms.len() > 0 {
        lemma_wf_encodable(ms[0]);
        lemma_wf_list_encodable(ms.drop_first());
    }
}

/// The wire image of a node list splits at any index.
pub proof fn lemma_encode_list_split(ms: Seq<TlvView>, i: int)
    requires
        0 <= i <= ms.len(),
    ensures
        spec_encode_list(ms) == spec_encode_list(ms.subrange(0, i)) + spec_encode_list(
            ms.subrange(i, ms.len() as int),
        ),
    decreases i,
{
    if i == 0 {
        assert(ms.subrange(0, 0) =~= Seq::<TlvView>::empty());
        assert(ms.subrange(0, ms.len() as int) =~= ms);
        assert(spec_encode_list(ms.subrange(0, 0)) + spec_encode_list(
            ms.subrange(0, ms.len() as int),
        ) =~= spec_encode_list(ms));
    } else {
        let rest = ms.drop_first();
        lemma_encode_list_split(rest, i - 1);
        assert(ms.subrange(0, i).drop_first() =~= rest.subrange(0, i - 1));
        assert(ms.subrange(0, i).len() > 0);
        assert(spec_encode_list(ms.subrange(0, i)) == spec_encode(ms.subrange(0, i)[0])
            + spec_encode_list(ms.subrange(0, i).drop_first()));
        assert(ms.subrange(0, i)[0] == ms[0]);
        assert(ms.subrange(i, ms.len() as int) =~= rest.subrange(i - 1, rest.len() as int));
        assert(spec_encode_list(ms) =~= spec_encode_list(ms.subrange(0, i)) + spec_encode_list(
            ms.subrange(i, ms.len() as int),
        ));
    }
}

/// The wire image of a one-node list is the node's wire image.
pub proof fn lemma_encode_list_singleton(m: TlvView)
    ensures
        spec_encode_list(seq![m]) == spec_encode(m),
{
    let empty = Seq::<TlvView>::empty();
    assert(seq![m].drop_first() =~= empty);
    assert(spec_encode_list(empty) =~= Seq::<u8>::empty());
    assert(spec_encode_list(seq![m]) == spec_encode(seq![m][0]) + spec_encode_list(
        seq![m].drop_first(),
    ));
    assert(spec_encode_list(seq![m]) =~= spec_encode(m));
}

/// Extending a node list by one node appends that node's wire image.
pub proof fn lemma_encode_list_snoc(ms: Seq<TlvView>, m: TlvView)
    ensures
        spec_encode_list(ms.push(m)) == spec_encode_list(ms) + spec_encode(m),
{
    lemma_encode_list_split(ms.push(m), ms.len() as int);
    assert(ms.push(m).subrange(0, ms.len() as int) =~= ms);
    assert(ms.push(m).subrange(ms.len() as int, ms.len() as int + 1) =~= seq![m]);
    lemma_encode_list_singleton(m);
}

/// No node's wire image is longer than that of any list it belongs to.
pub proof fn lemma_encode_list_elem_len(ms: Seq<TlvView>, i: int)
    requires
        0 <= i < ms.len(),
    ensures
        spec_encode(ms[i]).len() <= spec_encode_list(ms).len(),
    decreases i,
{
    if i == 0 {
    } else {
        let rest = ms.drop_first();
        lemma_encode_list_elem_len(rest, i - 1);
        assert(rest[i - 1] == ms[i]);
    }
}

/// If the first part of a node list encodes without error, the list's
/// encode error is that of the remainder.
pub proof fn lemma_encode_err_list_split(ms: Seq<TlvView>, i: int)
    requires
        0 <= i <= ms.len(),
        spec_encode_err_list(ms.subrange(0, i)) is None,
    ensures
        spec_encode_err_list(ms) == spec_encode_err_list(ms.subrange(i, ms.len() as int)),
    decreases i,
{
    if i == 0 {
        assert(ms.subrange(0, ms.len() as int) =~= ms);
    } else {
        let rest = ms.drop_first();
        assert(ms.subrange(0, i)[0] == ms[0]);
        assert(ms.subrange(0, i).drop_first() =~= rest.subrange(0, i - 1));
        lemma_encode_err_list_split(rest, i - 1);
        assert(ms.subrange(i, ms.len() as int) =~= rest.subrange(i - 1, rest.len() as int));
    }
}

/// Extending a node list by one node keeps an earlier encode error, else
/// contributes the new node's.
pub proof fn lemma_encode_err_list_snoc(ms: Seq<TlvView>, m: TlvView)
    ensures
        spec_encode_err_list(ms.push(m)) == (match spec_encode_err_list(ms) {
            Some(e) => Some(e),
            None => spec_encode_err(m),
        }),
    decreases ms,
{
    assert(ms.push(m).len() == ms.len() + 1);
    if ms.len() == 0 {
        assert(ms.push(m)[0] == m);
        assert(ms.push(m).drop_first() =~= Seq::<TlvView>::empty());
        assert(spec_encode_err_list(Seq::<TlvView>::empty()) is None);
        assert(spec_encode_err_list(ms.push(m)) == (match spec_encode_err(m) {
            Some(e) => Some(e),
            None => spec_encode_err_list(ms.push(m).drop_first()),
        }));
    } else {
        assert(ms.push(m)[0] == ms[0]);
        assert(ms.push(m).drop_first() =~= ms.drop_first().push(m));
        lemma_encode_err_list_snoc(ms.drop_first(), m);
    }
}

/// A successful single-node parse consumes at least the 8-byte header and at
/// most the available bytes.
pub proof fn lemma_parse_node_bounds(s: Seq<u8>)
    ensures
        spec_parse_node(s) matches Ok((m, c)) ==> 8 <= c <= s.len(),
{
}

/// One unfolding of the node-list parse: a successful leading node parse
/// prepends its node to the parse of the remaining window.
pub proof fn lemma_parse_list_step(s: Seq<u8>)
    requires
        s.len() > 0,
        spec_parse_node(s) is Ok,
    ensures
        spec_parse_list(s) == (match spec_parse_node(s) {
            Ok((m, c)) => match spec_parse_list(s.subrange(c, s.len() as int)) {
                Ok(rest) => Ok(seq![m] + rest),
                Err(e) => Err(e),
            },
            Err(e) => Err(e),
        }),
{
    lemma_parse_node_bounds(s);
}

/// Every successfully decoded node is well formed — a group carries no
/// value and only well-formed children, any other node carries exactly the
/// value its kind demands — and its canonical wire image is as long as the
/// bytes the decoder consumed for it.
pub proof fn lemma_parse_node_wf(s: Seq<u8>)
    ensures
        spec_parse_node(s) matches Ok((m, c)) ==> wf_node(m) && spec_encode(m).len() == c,
    decreases s.len(), 0int,
{
    if spec_parse_node(s) is Ok {
        let (m, c) = spec_parse_node(s)->Ok_0;
        let total = be32_val(s.subrange(0, 4)) as int;
        let t = TlvType::spec_from_code(be32_val(s.subrange(4, 8)))->Some_0;
        match t.spec_meta() {
            MetaType::Str => {
                let b = s.subrange(8, total - 1);
                vstd::utf8::decode_utf8_encode_utf8(b);
            },
            MetaType::Group => {
                lemma_parse_list_wf(s.subrange(8, total));
                assert(m.children =~= spec_parse_list(s.subrange(8, total))->Ok_0);
            },
            _ => {},
        }
        assert(m.children =~= seq![] || t.spec_meta() == MetaType::Group);
    }
}

/// Every successfully decoded node sequence is well formed, and its
/// canonical wire image fills the decoded window exactly.
pub proof fn lemma_parse_list_wf(s: Seq<u8>)
    ensures
        spec_parse_list(s) matches Ok(ms) ==> wf_list(ms) && spec_encode_list(ms).len() == s.len(),
    decreases s.len(), 1int,
{
    if s.len() > 0 && spec_parse_list(s) is Ok {
        let (m, c) = spec_parse_node(s)->Ok_0;
        lemma_parse_node_wf(s);
        let rest = spec_parse_list(s.subrange(c, s.len() as int))->Ok_0;
        lemma_parse_list_wf(s.subrange(c, s.len() as int));
        let ms = seq![m] + rest;
        assert(ms[0] == m);
        assert(ms.drop_first() =~= rest);
        assert(spec_encode_list(ms) == spec_encode(m) + spec_encode_list(rest));
    }
}

/// The wire image of a node is its payload plus the 8-byte header.
pub proof fn lemma_encode_len(m: TlvView)
    ensures
        spec_encode(m).len() == spec_payload(m).len() + 8,
{
}

/// Round-trip law for a single node: decoding the wire image of any
/// well-formed node, whatever bytes follow it, yields exactly that node and
/// consumes exactly its image.
pub proof fn lemma_node_round_trip(m: TlvView, rest: Seq<u8>)
    requires
        wf_node(m),
    ensures
        spec_parse_node(spec_encode(m) + rest) == Ok::<(TlvView, int), Error>(
            (m, spec_encode(m).len() as int),
        ),
    decreases m, 1int,
{
    let enc = spec_encode(m);
    let pl = spec_payload(m);
    let s = enc + rest;
    let total = (pl.len() + 8) as u32;
    assert(s.subrange(0, 4) =~= be32(total));
    lemma_be32_round_trip(total);
    assert(s.subrange(4, 8) =~= be32(m.tlv_type.code()));
    lemma_be32_round_trip(m.tlv_type.code());
    crate::taxonomy::lemma_from_code_of_code(m.tlv_type);
    assert(m.children =~= seq![] || m.tlv_type.spec_meta() == MetaType::Group);
    match m.tlv_type.spec_meta() {
        MetaType::Bool => {
            assert(s[8] == pl[0]);
        },
        MetaType::Uint => {
            let v = m.value->Some_0->UInt_0;
            assert(s.subrange(8, 12) =~= be32(v));
            lemma_be32_round_trip(v);
        },
        MetaType::Qword => {
            let v = m.value->Some_0->ULongInt_0;
            assert(s.subrange(8, 16) =~= be64(v));
            lemma_be64_round_trip(v);
        },
        MetaType::Str => {
            let chars = m.value->Some_0->Str_0;
            assert(s.subrange(8, total - 1) =~= encode_utf8(chars));
            vstd::utf8::encode_utf8_valid_utf8(chars);
            vstd::utf8::encode_utf8_decode_utf8(chars);
        },
        MetaType::Raw => {
            let b = m.value->Some_0->Bytes_0;
            assert(s.subrange(8, total as int) =~= b);
        },
        MetaType::Complex => {
            let b = m.value->Some_0->Bytes_0;
            assert(s.subrange(8, total as int) =~= b);
        },
        MetaType::Group => {
            assert(s.subrange(8, total as int) =~= spec_encode_list(m.children));
            lemma_list_round_trip(m.children);
        },
        _ => {
            assert(false);
        },
    }
}

/// Round-trip law for a node sequence: decoding the concatenated wire images
/// of well-formed nodes yields exactly those nodes in order, duplicates and
/// all.
pub proof fn lemma_list_round_trip(ms: Seq<TlvView>)
    requires
        wf_list(ms),
    ensures
        spec_parse_list(spec_encode_list(ms)) == Ok::<Seq<TlvView>, Error>(ms),
    decreases ms, 2int,
{
    if ms.len() == 0 {
        assert(ms =~= seq![]);
    } else {
        let head = ms[0];
        let tail = ms.drop_first();
        let s = spec_encode_list(ms);
        let c = spec_encode(head).len() as int;
        lemma_node_round_trip(head, spec_encode_list(tail));
        assert(s =~= spec_encode(head) + spec_encode_list(tail));
        assert(s.subrange(c, s.len() as int) =~= spec_encode_list(tail));
        lemma_list_round_trip(tail);
        assert(seq![head] + tail =~= ms);
    }
}

} // verus!
