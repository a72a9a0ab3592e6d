//! The TLV node: a recursive tree holding a field identifier, an optional
//! scalar value, and an ordered list of child nodes, with encode and decode
//! against the byte codec and the type taxonomy.
use crate::binary_reader::BinaryReader;
use crate::binary_writer::BinaryWriter;
use crate::error::Error;
use crate::model::{
    lemma_encode_err_list_snoc, lemma_encode_err_list_split, lemma_encode_len,
    lemma_encode_list_elem_len, lemma_encode_list_snoc, spec_encode, spec_encode_err,
    spec_encode_err_list, spec_encode_list, spec_parse_list, spec_parse_node, spec_payload,
    TlvValueView, TlvView,
};
use crate::taxonomy::{MetaType, TlvType};
use vstd::prelude::*;

verus! {

/// A scalar value stored in a non-group node.  Exactly one variant is
/// populated for a non-group node; a group node stores no value.
#[derive(Debug, PartialEq, Eq)]
pub enum TlvValue {
    Bool(bool),
    UInt(u32),
    ULongInt(u64),
    Str(String),
    Bytes(Vec<u8>),
}

impl View for TlvValue {
    type V = TlvValueView;

    open spec fn view(&self) -> TlvValueView {
        match self {
            TlvValue::Bool(b) => TlvValueView::Bool(*b),
            TlvValue::UInt(v) => TlvValueView::UInt(*v),
            TlvValue::ULongInt(v) => TlvValueView::ULongInt(*v),
            TlvValue::Str(s) => TlvValueView::Str(s@),
            TlvValue::Bytes(b) => TlvValueView::Bytes(b@),
        }
    }
}

/// A TLV node.  Children are kept in the order they were added; a field
/// identifier may legally repeat among the children of one node.
#[derive(Debug, PartialEq, Eq)]
pub struct Tlv {
    pub tlv_type: TlvType,
    pub value: Option<TlvValue>,
    pub tlvs: Vec<Tlv>,
}

impl Tlv {
    /// The model of this node: identifier, value model, child models.
    pub open spec fn view_node(self) -> TlvView
        decreases self, 0int,
    {
        TlvView {
            tlv_type: self.tlv_type,
            value: match self.value {
                Some(v) => Some(v@),
                None => None,
            },
            children: Tlv::view_list(self.tlvs@),
        }
    }

    /// The models of a sequence of nodes, in order.
    pub open spec fn view_list(ts: Seq<Tlv>) -> Seq<TlvView>
        decreases ts, 1int,
    {
        if ts.len() == 0 {
            seq![]
        } else {
            seq![ts[0].view_node()] + Tlv::view_list(ts.drop_first())
        }
    }
}

impl View for Tlv {
    type V = TlvView;

    open spec fn view(&self) -> TlvView {
        Tlv::view_node(*self)
    }
}

/// The model sequence of a node sequence has the same length and is taken
/// node by node.
pub proof fn lemma_view_list_index(ts: Seq<Tlv>)
    ensures
        Tlv::view_list(ts).len() == ts.len(),
        forall|i: int| 0 <= i < ts.len() ==> Tlv::view_list(ts)[i] == ts[i].view_node(),
    decreases ts,
{
    if ts.len() > 0 {
        lemma_view_list_index(ts.drop_first());
        assert forall|i: int| 0 <= i < ts.len() implies Tlv::view_list(ts)[i]
            == ts[i].view_node() by {
            if i > 0 {
                assert(ts.drop_first()[i - 1] == ts[i]);
            }
        }
    }
}

/// Appending a node to a sequence appends its model to the model sequence.
pub proof fn lemma_view_list_push(ts: Seq<Tlv>, t: Tlv)
    ensures
        Tlv::view_list(ts.push(t)) == Tlv::view_list(ts).push(t.view_node()),
{
    lemma_view_list_index(ts.push(t));
    lemma_view_list_index(ts);
    assert(Tlv::view_list(ts.push(t)) =~= Tlv::view_list(ts).push(t.view_node()));
}

impl Tlv {
    /// Builds a scalar node carrying the given value, with no children.  No
    /// kind check happens here; a value that does not match the identifier's
    /// kind is rejected when the node is encoded.
    pub fn new(tlv_type: TlvType, value: TlvValue) -> (r: Tlv)
        ensures
            r@ == (TlvView { tlv_type, value: Some(value@), children: seq![] }),
    {
        let r = Tlv { tlv_type, value: Some(value), tlvs: Vec::new() };
        proof {
            assert(r@.children =~= seq![]);
        }
        r
    }

    /// Encodes this node onto the end of `storage` as `{length, field id,
    /// payload}`, where the 4-byte big-endian length counts the payload plus
    /// the 8-byte header itself.  A group node encodes its children in the
    /// order they were added.
    ///
    /// Fails, appending nothing, exactly as [`spec_encode_err`] says: with
    /// `UnsupportedFeature` on a reserved kind, `NoValue` or `TypeMismatch`
    /// on a missing or mismatched scalar, or a child's error.
    pub fn to_raw(&self, storage: &mut Vec<u8>) -> (r: Result<(), Error>)
        requires
            spec_encode(self@).len() <= u32::MAX,
        ensures
            match spec_encode_err(self@) {
                None => r == Ok::<(), Error>(()) && final(storage)@ == old(storage)@ + spec_encode(
                    self@,
                ),
                Some(e) => r == Err::<(), Error>(e) && final(storage)@ == old(storage)@,
            },
        decreases *self,
    {
        let meta = self.tlv_type.to_meta_type();
        match meta {
            MetaType::Group => {
                let ghost children = self@.children;
                let mut group_data: Vec<u8> = Vec::new();
                let n = self.tlvs.len();
                proof {
                    lemma_view_list_index(self.tlvs@);
                    assert(children.subrange(0, 0) =~= Seq::<TlvView>::empty());
                    assert(group_data@ =~= spec_encode_list(children.subrange(0, 0)));
                }
                let mut i: usize = 0;
                while i < n
                    invariant
                        i <= n,
                        n == self.tlvs@.len(),
                        children == self@.children,
                        children.len() == n,
                        self@.tlv_type.spec_meta() == MetaType::Group,
                        spec_encode(self@).len() <= u32::MAX,
                        forall|j: int| 0 <= j < n ==> children[j] == self.tlvs@[j].view_node(),
                        spec_encode_err_list(children.subrange(0, i as int)) is None,
                        group_data@ == spec_encode_list(children.subrange(0, i as int)),
                    decreases n - i,
                {
                    proof {
                        assert(spec_payload(self@) == spec_encode_list(children));
                        lemma_encode_list_elem_len(children, i as int);
                        assert(spec_encode(children[i as int]).len() <= u32::MAX);
                    }
                    match self.tlvs[i].to_raw(&mut group_data) {
                        Ok(()) => {
                            proof {
                                assert(children.subrange(0, i + 1) =~= children.subrange(
                                    0,
                                    i as int,
                                ).push(children[i as int]));
                                lemma_encode_list_snoc(
                                    children.subrange(0, i as int),
                                    children[i as int],
                                );
                                lemma_encode_err_list_snoc(
                                    children.subrange(0, i as int),
                                    children[i as int],
                                );
                            }
                            i = i + 1;
                        },
                        Err(e) => {
                            proof {
                                lemma_encode_err_list_split(children, i as int);
                                assert(children.subrange(i as int, n as int)[0] == children[
                                i as int]);
                                assert(spec_encode_err_list(children) == Some(e));
                            }
                            return Err(e);
                        },
                    }
                }
                proof {
                    assert(children.subrange(0, n as int) =~= children);
                    assert(spec_payload(self@) == spec_encode_list(children));
                    lemma_encode_len(self@);
                }
                BinaryWriter::write_dword(storage, (group_data.len() as u32) + 8);
                BinaryWriter::write_tlv_type(storage, self.tlv_type);
                BinaryWriter::write_bytes(storage, group_data.as_slice());
                proof {
                    assert(final(storage)@ =~= old(storage)@ + spec_encode(self@));
                }
                Ok(())
            },
            MetaType::Bool => match &self.value {
                Some(TlvValue::Bool(v)) => {
                    BinaryWriter::write_dword(storage, 1 + 8);
                    BinaryWriter::write_tlv_type(storage, self.tlv_type);
                    BinaryWriter::write_bool(storage, *v);
                    proof {
                        assert(final(storage)@ =~= old(storage)@ + spec_encode(self@));
                    }
                    Ok(())
                },
                Some(_) => Err(Error::TypeMismatch),
                None => Err(Error::NoValue),
            },
            MetaType::Uint => match &self.value {
                Some(TlvValue::UInt(v)) => {
                    BinaryWriter::write_dword(storage, 4 + 8);
                    BinaryWriter::write_tlv_type(storage, self.tlv_type);
                    BinaryWriter::write_dword(storage, *v);
                    proof {
                        assert(final(storage)@ =~= old(storage)@ + spec_encode(self@));
                    }
                    Ok(())
                },
                Some(_) => Err(Error::TypeMismatch),
                None => Err(Error::NoValue),
            },
            MetaType::Qword => match &self.value {
                Some(TlvValue::ULongInt(v)) => {
                    BinaryWriter::write_dword(storage, 8 + 8);
                    BinaryWriter::write_tlv_type(storage, self.tlv_type);
                    BinaryWriter::write_qword(storage, *v);
                    proof {
                        assert(final(storage)@ =~= old(storage)@ + spec_encode(self@));
                    }
                    Ok(())
                },
                Some(_) => Err(Error::TypeMismatch),
                None => Err(Error::NoValue),
            },
            MetaType::Str => match &self.value {
                Some(TlvValue::Str(v)) => {
                    let byte_len = v.as_str().len();
                    proof {
                        lemma_encode_len(self@);
                        assert(spec_payload(self@).len() == byte_len + 1);
                    }
                    BinaryWriter::write_dword(storage, (byte_len as u32) + 1 + 8);
                    BinaryWriter::write_tlv_type(storage, self.tlv_type);
                    BinaryWriter::write_string(storage, v.as_str().to_owned());
                    proof {
                        assert(final(storage)@ =~= old(storage)@ + spec_encode(self@));
                    }
                    Ok(())
                },
                Some(_) => Err(Error::TypeMismatch),
                None => Err(Error::NoValue),
            },
            MetaType::Raw => match &self.value {
                Some(TlvValue::Bytes(v)) => {
                    proof {
                        lemma_encode_len(self@);
                    }
                    BinaryWriter::write_dword(storage, (v.len() as u32) + 8);
                    BinaryWriter::write_tlv_type(storage, self.tlv_type);
                    BinaryWriter::write_bytes(storage, v.as_slice());
                    proof {
                        assert(final(storage)@ =~= old(storage)@ + spec_encode(self@));
                    }
                    Ok(())
                },
                Some(_) => Err(Error::TypeMismatch),
                None => Err(Error::NoValue),
            },
            MetaType::Complex => match &self.value {
                Some(TlvValue::Bytes(v)) => {
                    proof {
                        lemma_encode_len(self@);
                    }
                    BinaryWriter::write_dword(storage, (v.len() as u32) + 8);
                    BinaryWriter::write_tlv_type(storage, self.tlv_type);
                    BinaryWriter::write_bytes(storage, v.as_slice());
                    proof {
                        assert(final(storage)@ =~= old(storage)@ + spec_encode(self@));
                    }
                    Ok(())
                },
                Some(_) => Err(Error::TypeMismatch),
                None => Err(Error::NoValue),
            },
            _ => Err(Error::UnsupportedFeature),
        }
    }

    /// Decodes one node from `storage` at the cursor, exactly as
    /// [`spec_parse_node`] of the remaining bytes prescribes: the node's
    /// declared length and field identifier are read, the identifier is
    /// looked up in the closed taxonomy, and the payload is read by kind,
    /// with a group decoding children until its declared payload is consumed
    /// exactly.  On success the cursor advances over the consumed bytes; on
    /// failure the prescribed error is returned.
    pub fn from_raw(storage: &Vec<u8>, position: &mut usize) -> (r: Result<Tlv, Error>)
        requires
            *old(position) <= storage@.len(),
        ensures
            match spec_parse_node(
                storage@.subrange(*old(position) as int, storage@.len() as int),
            ) {
                Ok((m, c)) => r matches Ok(t) && t@ == m && *final(position) == *old(position) + c,
                Err(e) => r == Err::<Tlv, Error>(e),
            },
    {
        let limit = storage.len();
        Self::parse_bounded(storage, position, limit)
    }

    /// Decodes one node from the window of `storage` that ends at `limit`,
    /// mirroring [`spec_parse_node`] of that window.
    #[verifier::loop_isolation(false)]
    #[verifier::rlimit(60)]
    #[verifier::spinoff_prover]
    fn parse_bounded(storage: &Vec<u8>, position: &mut usize, limit: usize) -> (r: Result<
        Tlv,
        Error,
    >)
        requires
            *old(position) <= limit <= storage@.len(),
        ensures
            match spec_parse_node(storage@.subrange(*old(position) as int, limit as int)) {
                Ok((m, c)) => r matches Ok(t) && t@ == m && *final(position) == *old(position) + c,
                Err(e) => r == Err::<Tlv, Error>(e),
            },
        decreases limit - *position,
    {
        let ghost pos0 = *position as int;
        let ghost w = storage@.subrange(pos0, limit as int);
        if limit - *position < 4 {
            return Err(Error::Truncated);
        }
        let total_u32 = match BinaryReader::read_dword(storage, position) {
            Ok(v) => v,
            Err(e) => {
                return Err(e);
            },
        };
        proof {
            assert(storage@.subrange(pos0, pos0 + 4) =~= w.subrange(0, 4));
        }
        let total = total_u32 as usize;
        if total < 8 {
            return Err(Error::Truncated);
        }
        if limit - *position < 4 {
            return Err(Error::Truncated);
        }
        proof {
            assert(storage@.subrange(pos0 + 4, pos0 + 8) =~= w.subrange(4, 8));
        }
        let t = match BinaryReader::read_tlv_type(storage, position) {
            Ok(t) => t,
            Err(e) => {
                return Err(e);
            },
        };
        let meta = t.to_meta_type();
        match meta {
            MetaType::Bool => {
                if limit - *position < 1 {
                    return Err(Error::Truncated);
                }
                let v = match BinaryReader::read_bool(storage, position) {
                    Ok(v) => v,
                    Err(e) => {
                        return Err(e);
                    },
                };
                let node = Tlv { tlv_type: t, value: Some(TlvValue::Bool(v)), tlvs: Vec::new() };
                proof {
                    assert(node@.children =~= seq![]);
                    assert(storage@[pos0 + 8] == w[8]);
                }
                Ok(node)
            },
            MetaType::Uint => {
                if limit - *position < 4 {
                    return Err(Error::Truncated);
                }
                let v = match BinaryReader::read_dword(storage, position) {
                    Ok(v) => v,
                    Err(e) => {
                        return Err(e);
                    },
                };
                let node = Tlv { tlv_type: t, value: Some(TlvValue::UInt(v)), tlvs: Vec::new() };
                proof {
                    assert(node@.children =~= seq![]);
                    assert(storage@.subrange(pos0 + 8, pos0 + 12) =~= w.subrange(8, 12));
                }
                Ok(node)
            },
            MetaType::Qword => {
                if limit - *position < 8 {
                    return Err(Error::Truncated);
                }
                let v = match BinaryReader::read_qword(storage, position) {
                    Ok(v) => v,
                    Err(e) => {
                        return Err(e);
                    },
                };
                let node = Tlv {
                    tlv_type: t,
                    value: Some(TlvValue::ULongInt(v)),
                    tlvs: Vec::new(),
                };
                proof {
                    assert(node@.children =~= seq![]);
                    assert(storage@.subrange(pos0 + 8, pos0 + 16) =~= w.subrange(8, 16));
                }
                Ok(node)
            },
            MetaType::Str => {
                if total < 9 {
                    return Err(Error::Truncated);
                }
                if total - 8 > limit - *position {
                    return Err(Error::Truncated);
                }
                proof {
                    assert(storage@.subrange(pos0 + 8, pos0 + total - 1) =~= w.subrange(
                        8,
                        total - 1,
                    ));
                }
                let s = match BinaryReader::read_string(storage, position, (total - 8) as u32) {
                    Ok(s) => s,
                    Err(e) => {
                        return Err(e);
                    },
                };
                let node = Tlv { tlv_type: t, value: Some(TlvValue::Str(s)), tlvs: Vec::new() };
                proof {
                    assert(node@.children =~= seq![]);
                }
                Ok(node)
            },
            MetaType::Raw => {
                if total - 8 > limit - *position {
                    return Err(Error::Truncated);
                }
                proof {
                    assert(storage@.subrange(pos0 + 8, pos0 + total) =~= w.subrange(
                        8,
                        total as int,
                    ));
                }
                let v = match BinaryReader::read_bytes(storage, position, (total - 8) as u32) {
                    Ok(v) => v,
                    Err(e) => {
                        return Err(e);
                    },
                };
                let node = Tlv { tlv_type: t, value: Some(TlvValue::Bytes(v)), tlvs: Vec::new() };
                proof {
                    assert(node@.children =~= seq![]);
                }
                Ok(node)
            },
            MetaType::Complex => {
                if total - 8 > limit - *position {
                    return Err(Error::Truncated);
                }
                proof {
                    assert(storage@.subrange(pos0 + 8, pos0 + total) =~= w.subrange(
                        8,
                        total as int,
                    ));
                }
                let v = match BinaryReader::read_bytes(storage, position, (total - 8) as u32) {
                    Ok(v) => v,
                    Err(e) => {
                        return Err(e);
                    },
                };
                let node = Tlv { tlv_type: t, value: Some(TlvValue::Bytes(v)), tlvs: Vec::new() };
                proof {
                    assert(node@.children =~= seq![]);
                }
                Ok(node)
            },
            MetaType::Group => {
                if total - 8 > limit - *position {
                    return Err(Error::Truncated);
                }
                let end = *position + (total - 8);
                let ghost payload = w.subrange(8, total as int);
                let mut children: Vec<Tlv> = Vec::new();
                proof {
                    assert(payload =~= storage@.subrange(pos0 + 8, pos0 + total));
                    assert(Tlv::view_list(children@) =~= Seq::<TlvView>::empty());
                    if payload.len() > 0 {
                        assert(spec_parse_list(payload) == (match spec_parse_list(
                            storage@.subrange(*position as int, end as int),
                        ) {
                            Ok(rest) => Ok(Tlv::view_list(children@) + rest),
                            Err(e) => Err::<Seq<TlvView>, Error>(e),
                        })) by {
                            assert(storage@.subrange(*position as int, end as int) =~= payload);
                            match spec_parse_list(payload) {
                                Ok(rest) => {
                                    assert(Tlv::view_list(children@) + rest =~= rest);
                                },
                                Err(_) => {},
                            }
                        }
                    } else {
                        assert(storage@.subrange(*position as int, end as int) =~= payload);
                        match spec_parse_list(payload) {
                            Ok(rest) => {
                                assert(Tlv::view_list(children@) + rest =~= rest);
                            },
                            Err(_) => {},
                        }
                    }
                }
                while *position < end
                    invariant
                        pos0 + 8 <= *position <= end,
                        end == pos0 + total,
                        8 <= total,
                        end <= limit <= storage@.len(),
                        w == storage@.subrange(pos0, limit as int),
                        payload == w.subrange(8, total as int),
                        spec_parse_list(payload) == (match spec_parse_list(
                            storage@.subrange(*position as int, end as int),
                        ) {
                            Ok(rest) => Ok(Tlv::view_list(children@) + rest),
                            Err(e) => Err::<Seq<TlvView>, Error>(e),
                        }),
                    decreases end - *position,
                {
                    let ghost prev = *position as int;
                    let ghost pre_children = children@;
                    let ghost u = storage@.subrange(prev, end as int);
                    match Self::parse_bounded(storage, position, end) {
                        Ok(child) => {
                            children.push(child);
                            proof {
                                let (m, c) = spec_parse_node(u)->Ok_0;
                                crate::model::lemma_parse_list_step(u);
                                assert(u.subrange(c, u.len() as int) =~= storage@.subrange(
                                    *position as int,
                                    end as int,
                                ));
                                lemma_view_list_push(pre_children, child);
                                match spec_parse_list(
                                    storage@.subrange(*position as int, end as int),
                                ) {
                                    Ok(rest) => {
                                        assert(Tlv::view_list(pre_children) + (seq![m] + rest)
                                            =~= Tlv::view_list(children@) + rest);
                                    },
                                    Err(_) => {},
                                }
                            }
                        },
                        Err(e) => {
                            proof {
                                assert(u.len() > 0);
                                assert(spec_parse_list(u) == Err::<Seq<TlvView>, Error>(e));
                            }
                            return Err(e);
                        },
                    }
                }
                proof {
                    assert(*position == end);
                    assert(storage@.subrange(end as int, end as int) =~= Seq::<u8>::empty());
                    assert(spec_parse_list(Seq::<u8>::empty()) == Ok::<Seq<TlvView>, Error>(
                        seq![],
                    ));
                    assert(Tlv::view_list(children@) + seq![] =~= Tlv::view_list(children@));
                }
                let node = Tlv { tlv_type: t, value: None, tlvs: children };
                Ok(node)
            },
            _ => Err(Error::UnsupportedFeature),
        }
    }

    /// Reads the stored string value; fails with `TypeMismatch` against any
    /// other stored variant and with `NoValue` on a group node.
    pub fn value_as_string(&self) -> (r: Result<String, Error>)
        ensures
            match self@.value {
                Some(TlvValueView::Str(s)) => r matches Ok(v) && v@ == s,
                Some(_) => r == Err::<String, Error>(Error::TypeMismatch),
                None => r == Err::<String, Error>(Error::NoValue),
            },
    {
        match &self.value {
            Some(TlvValue::Str(val)) => Ok(val.as_str().to_owned()),
            Some(_) => Err(Error::TypeMismatch),
            None => Err(Error::NoValue),
        }
    }

    /// Reads the stored boolean value; fails with `TypeMismatch` against any
    /// other stored variant and with `NoValue` on a group node.
    pub fn value_as_bool(&self) -> (r: Result<bool, Error>)
        ensures
            match self@.value {
                Some(TlvValueView::Bool(b)) => r == Ok::<bool, Error>(b),
                Some(_) => r == Err::<bool, Error>(Error::TypeMismatch),
                None => r == Err::<bool, Error>(Error::NoValue),
            },
    {
        match &self.value {
            Some(TlvValue::Bool(val)) => Ok(*val),
            Some(_) => Err(Error::TypeMismatch),
            None => Err(Error::NoValue),
        }
    }

    /// Reads the stored 32-bit value; fails with `TypeMismatch` against any
    /// other stored variant and with `NoValue` on a group node.
    pub fn value_as_uint32(&self) -> (r: Result<u32, Error>)
        ensures
            match self@.value {
                Some(TlvValueView::UInt(v)) => r == Ok::<u32, Error>(v),
                Some(_) => r == Err::<u32, Error>(Error::TypeMismatch),
                None => r == Err::<u32, Error>(Error::NoValue),
            },
    {
        match &self.value {
            Some(TlvValue::UInt(val)) => Ok(*val),
            Some(_) => Err(Error::TypeMismatch),
            None => Err(Error::NoValue),
        }
    }

    /// Reads the stored 64-bit value; fails with `TypeMismatch` against any
    /// other stored variant and with `NoValue` on a group node.
    pub fn value_as_uint64(&self) -> (r: Result<u64, Error>)
        ensures
            match self@.value {
                Some(TlvValueView::ULongInt(v)) => r == Ok::<u64, Error>(v),
                Some(_) => r == Err::<u64, Error>(Error::TypeMismatch),
                None => r == Err::<u64, Error>(Error::NoValue),
            },
    {
        match &self.value {
            Some(TlvValue::ULongInt(val)) => Ok(*val),
            Some(_) => Err(Error::TypeMismatch),
            None => Err(Error::NoValue),
        }
    }

    /// Reads the stored byte-run value; fails with `TypeMismatch` against
    /// any other stored variant and with `NoValue` on a group node.
    pub fn value_as_bytes(&self) -> (r: Result<&Vec<u8>, Error>)
        ensures
            match self@.value {
                Some(TlvValueView::Bytes(b)) => r matches Ok(v) && v@ == b,
                Some(_) => r == Err::<&Vec<u8>, Error>(Error::TypeMismatch),
                None => r == Err::<&Vec<u8>, Error>(Error::NoValue),
            },
    {
        match &self.value {
            Some(TlvValue::Bytes(val)) => Ok(val),
            Some(_) => Err(Error::TypeMismatch),
            None => Err(Error::NoValue),
        }
    }

    /// Appends a child node.  Children may only be added to a node whose own
    /// kind is `Group`; on any other receiver nothing changes and the call
    /// fails with `NotAGroup`.
    pub fn add_tlv(&mut self, tlv: Tlv) -> (r: Result<(), Error>)
        ensures
            old(self)@.tlv_type.spec_meta() == MetaType::Group ==> r == Ok::<(), Error>(())
                && final(self)@ == (TlvView {
                children: old(self)@.children.push(tlv@),
                ..old(self)@
            }),
            old(self)@.tlv_type.spec_meta() != MetaType::Group ==> r == Err::<(), Error>(
                Error::NotAGroup,
            ) && *final(self) == *old(self),
    {
        let meta = self.tlv_type.to_meta_type();
        if meta == MetaType::Group {
            let ghost pre = self.tlvs@;
            self.tlvs.push(tlv);
            proof {
                lemma_view_list_push(pre, tlv);
            }
            Ok(())
        } else {
            Err(Error::NotAGroup)
        }
    }

    /// Builds and appends a string child; the receiver must be a group.
    pub fn add_string(&mut self, tlv_type: TlvType, value: String) -> (r: Result<(), Error>)
        ensures
            old(self)@.tlv_type.spec_meta() == MetaType::Group ==> r == Ok::<(), Error>(())
                && final(self)@ == (TlvView {
                children: old(self)@.children.push(
                    TlvView { tlv_type, value: Some(TlvValueView::Str(value@)), children: seq![] },
                ),
                ..old(self)@
            }),
            old(self)@.tlv_type.spec_meta() != MetaType::Group ==> r == Err::<(), Error>(
                Error::NotAGroup,
            ) && *final(self) == *old(self),
    {
        let tlv = Tlv::new(tlv_type, TlvValue::Str(value));
        self.add_tlv(tlv)
    }

    /// Builds and appends a 32-bit child; the receiver must be a group.
    pub fn add_uint32(&mut self, tlv_type: TlvType, value: u32) -> (r: Result<(), Error>)
        ensures
            old(self)@.tlv_type.spec_meta() == MetaType::Group ==> r == Ok::<(), Error>(())
                && final(self)@ == (TlvView {
                children: old(self)@.children.push(
                    TlvView { tlv_type, value: Some(TlvValueView::UInt(value)), children: seq![] },
                ),
                ..old(self)@
            }),
            old(self)@.tlv_type.spec_meta() != MetaType::Group ==> r == Err::<(), Error>(
                Error::NotAGroup,
            ) && *final(self) == *old(self),
    {
        let tlv = Tlv::new(tlv_type, TlvValue::UInt(value));
        self.add_tlv(tlv)
    }

    /// Builds and appends a 64-bit child; the receiver must be a group.
    pub fn add_uint64(&mut self, tlv_type: TlvType, value: u64) -> (r: Result<(), Error>)
        ensures
            old(self)@.tlv_type.spec_meta() == MetaType::Group ==> r == Ok::<(), Error>(())
                && final(self)@ == (TlvView {
                children: old(self)@.children.push(
                    TlvView {
                        tlv_type,
                        value: Some(TlvValueView::ULongInt(value)),
                        children: seq![],
                    },
                ),
                ..old(self)@
            }),
            old(self)@.tlv_type.spec_meta() != MetaType::Group ==> r == Err::<(), Error>(
                Error::NotAGroup,
            ) && *final(self) == *old(self),
    {
        let tlv = Tlv::new(tlv_type, TlvValue::ULongInt(value));
        self.add_tlv(tlv)
    }

    /// Builds and appends a boolean child; the receiver must be a group.
    pub fn add_bool(&mut self, tlv_type: TlvType, value: bool) -> (r: Result<(), Error>)
        ensures
            old(self)@.tlv_type.spec_meta() == MetaType::Group ==> r == Ok::<(), Error>(())
                && final(self)@ == (TlvView {
                children: old(self)@.children.push(
                    TlvView { tlv_type, value: Some(TlvValueView::Bool(value)), children: seq![] },
                ),
                ..old(self)@
            }),
            old(self)@.tlv_type.spec_meta() != MetaType::Group ==> r == Err::<(), Error>(
                Error::NotAGroup,
            ) && *final(self) == *old(self),
    {
        let tlv = Tlv::new(tlv_type, TlvValue::Bool(value));
        self.add_tlv(tlv)
    }

    /// Builds and appends a byte-run child; the receiver must be a group.
    pub fn add_bytes(&mut self, tlv_type: TlvType, value: Vec<u8>) -> (r: Result<(), Error>)
        ensures
            old(self)@.tlv_type.spec_meta() == MetaType::Group ==> r == Ok::<(), Error>(())
                && final(self)@ == (TlvView {
                children: old(self)@.children.push(
                    TlvView {
                        tlv_type,
                        value: Some(TlvValueView::Bytes(value@)),
                        children: seq![],
                    },
                ),
                ..old(self)@
            }),
            old(self)@.tlv_type.spec_meta() != MetaType::Group ==> r == Err::<(), Error>(
                Error::NotAGroup,
            ) && *final(self) == *old(self),
    {
        let tlv = Tlv::new(tlv_type, TlvValue::Bytes(value));
        self.add_tlv(tlv)
    }

    /// Builds and appends an empty group child; the receiver must itself be
    /// a group.
    pub fn add_group(&mut self, tlv_type: TlvType) -> (r: Result<(), Error>)
        ensures
            old(self)@.tlv_type.spec_meta() == MetaType::Group ==> r == Ok::<(), Error>(())
                && final(self)@ == (TlvView {
                children: old(self)@.children.push(
                    (TlvView { tlv_type, value: None, children: seq![] }),
                ),
                ..old(self)@
            }),
            old(self)@.tlv_type.spec_meta() != MetaType::Group ==> r == Err::<(), Error>(
                Error::NotAGroup,
            ) && *final(self) == *old(self),
    {
        let tlv = Tlv { tlv_type, value: None, tlvs: Vec::new() };
        proof {
            assert(tlv@.children =~= seq![]);
        }
        self.add_tlv(tlv)
    }
}

} // verus!
