//! The messages that the parties exchange, and the protocol-buffers wire
//! form of those that the protocol signs or encrypts.
//!
//! Each message field of type `bytes` is written, when it is not empty, as
//! its key (the field number times 8, plus 2, as a varint), the length of
//! the value (a varint) and the value; fields come in field-number order.

use vstd::prelude::*;

verus! {

/// Identity of a sender: its identifier and the signature of it.
#[derive(Clone, Debug, PartialEq, Eq)]
pub struct Auth {
    pub id: Vec<u8>,
    pub id_sign: Vec<u8>,
}

/// A sender's request for a message identifier.
#[derive(Clone, Debug, PartialEq, Eq)]
pub struct GenIdReq {
    pub ct: Vec<u8>,
    pub ct_hash: Vec<u8>,
    pub ct_hash_ct: Vec<u8>,
    pub auth: Option<Auth>,
}

/// The exchange server's reply to a [`GenIdReq`].
#[derive(Clone, Debug, PartialEq, Eq)]
pub struct GenIdRes {
    pub src_ct: Vec<u8>,
    pub sign: Vec<u8>,
}

/// What the exchange server signs for a message identifier.
#[derive(Clone, Debug, PartialEq, Eq)]
pub struct GenIdSignedPack {
    pub src_ct: Vec<u8>,
    pub ct_hash: Vec<u8>,
    pub ct_hash_ct: Vec<u8>,
}

/// A message identifier, as the receiver gets it.
#[derive(Clone, Debug, PartialEq, Eq)]
pub struct MsgId {
    pub msg_key: Vec<u8>,
    pub ct_hash: Vec<u8>,
    pub src_ct: Vec<u8>,
    pub sign: Vec<u8>,
}

/// A message: the encoded identifier and the body.
#[derive(Clone, Debug, PartialEq, Eq)]
pub struct Msg {
    pub id_bs: Vec<u8>,
    pub body: Vec<u8>,
}

/// The counters of a double-ratchet message header.
#[derive(Clone, Debug, PartialEq, Eq)]
pub struct EeMsgHeader {
    pub n: u32,
    pub pn: u32,
}

/// An end-to-end encrypted message.
#[derive(Clone, Debug, PartialEq, Eq)]
pub struct EeMsg {
    pub header: Option<EeMsgHeader>,
    pub ct: Vec<u8>,
}

/// A correction word of an identifier share.
#[derive(Clone, Debug, PartialEq, Eq)]
pub struct IdShareCw {
    pub s: Vec<u8>,
    pub tl: bool,
    pub tr: bool,
}

/// One party's share of a distributed point function on an identifier.
#[derive(Clone, Debug, PartialEq, Eq)]
pub struct IdShare {
    pub s0: Vec<u8>,
    pub cw_np1: Vec<u8>,
    pub cws: Vec<IdShareCw>,
}

/// The base-128 varint of `n`: seven bits a byte, least significant
/// first, the high bit set on every byte but the last.
pub open spec fn varint(n: nat) -> Seq<u8>
    decreases n,
{
    if n < 128 {
        seq![n as u8]
    } else {
        seq![(n % 128 + 128) as u8] + varint(n / 128)
    }
}

/// The wire form of field number `tag` of type `bytes` holding `v`; an
/// empty value is not written.
pub open spec fn bytes_field(tag: nat, v: Seq<u8>) -> Seq<u8> {
    if v.len() == 0 {
        seq![]
    } else {
        varint(tag * 8 + 2) + varint(v.len()) + v
    }
}

/// The wire form of a [`GenIdSignedPack`].
pub open spec fn signed_pack_bytes(src_ct: Seq<u8>, ct_hash: Seq<u8>, ct_hash_ct: Seq<u8>) -> Seq<u8> {
    bytes_field(1, src_ct) + bytes_field(2, ct_hash) + bytes_field(3, ct_hash_ct)
}

/// The wire form of a [`MsgId`].
pub open spec fn msg_id_bytes(msg_key: Seq<u8>, ct_hash: Seq<u8>, src_ct: Seq<u8>, sign: Seq<u8>) -> Seq<u8> {
    bytes_field(1, msg_key) + bytes_field(2, ct_hash) + bytes_field(3, src_ct) + bytes_field(4, sign)
}

/// The wire form of a [`Msg`].
pub open spec fn msg_bytes(id_bs: Seq<u8>, body: Seq<u8>) -> Seq<u8> {
    bytes_field(1, id_bs) + bytes_field(2, body)
}

/// A field of fewer than 128 bytes takes two bytes more than its value.
pub proof fn lemma_short_field_len(tag: nat, v: Seq<u8>)
    requires
        1 <= tag < 16,
        0 < v.len() < 128,
    ensures
        bytes_field(tag, v).len() == v.len() + 2,
{
    assert(varint(tag * 8 + 2).len() == 1);
    assert(varint(v.len()).len() == 1);
}

/// An identifier made of a 28-byte message key, a 32-byte hash, a 32-byte
/// encrypted source and a 64-byte signature takes 164 bytes on the wire.
pub proof fn lemma_msg_id_size(msg_key: Seq<u8>, ct_hash: Seq<u8>, src_ct: Seq<u8>, sign: Seq<u8>)
    requires
        msg_key.len() == 28,
        ct_hash.len() == 32,
        src_ct.len() == 32,
        sign.len() == 64,
    ensures
        msg_id_bytes(msg_key, ct_hash, src_ct, sign).len() == 164,
{
    lemma_short_field_len(1, msg_key);
    lemma_short_field_len(2, ct_hash);
    lemma_short_field_len(3, src_ct);
    lemma_short_field_len(4, sign);
}

/// Appends the varint of `n` to `buf`.
pub fn push_varint(buf: &mut Vec<u8>, n: u64)
    ensures
        final(buf)@ == old(buf)@ + varint(n as nat),
{
    let mut v: u64 = n;
    while v >= 128
        invariant
            old(buf)@ + varint(n as nat) == buf@ + varint(v as nat),
        decreases v,
    {
        let byte: u8 = (v % 128 + 128) as u8;
        let ghost before = buf@;
        buf.push(byte);
        assert(varint(v as nat) == seq![byte] + varint((v / 128) as nat));
        assert(before + varint(v as nat) =~= buf@ + varint((v / 128) as nat));
        v = v / 128;
    }
    let ghost before = buf@;
    buf.push(v as u8);
    assert(buf@ =~= before + varint(v as nat));
}

/// Appends the wire form of field number `tag` of type `bytes` holding `v`;
/// field numbers are below `2^29` in protocol buffers.
pub fn push_bytes_field(buf: &mut Vec<u8>, tag: u64, v: &[u8])
    requires
        tag < 0x2000_0000,
    ensures
        final(buf)@ == old(buf)@ + bytes_field(tag as nat, v@),
{
    if v.len() == 0 {
        assert(old(buf)@ + bytes_field(tag as nat, v@) =~= old(buf)@);
        return;
    }
    push_varint(buf, tag * 8 + 2);
    push_varint(buf, v.len() as u64);
    let ghost mid = buf@;
    let mut i: usize = 0;
    while i < v.len()
        invariant
            i <= v@.len(),
            buf@ == mid + v@.subrange(0, i as int),
        decreases v@.len() - i,
    {
        buf.push(v[i]);
        assert(v@.subrange(0, i + 1) =~= v@.subrange(0, i as int).push(v@[i as int]));
        i = i + 1;
    }
    assert(v@.subrange(0, v@.len() as int) =~= v@);
    assert(old(buf)@ + bytes_field(tag as nat, v@) =~= mid + v@);
}

impl GenIdSignedPack {
    /// The wire form of this message.
    pub fn encode_to_vec(&self) -> (r: Vec<u8>)
        ensures
            r@ == signed_pack_bytes(self.src_ct@, self.ct_hash@, self.ct_hash_ct@),
    {
        let mut buf: Vec<u8> = Vec::new();
        push_bytes_field(&mut buf, 1, self.src_ct.as_slice());
        push_bytes_field(&mut buf, 2, self.ct_hash.as_slice());
        push_bytes_field(&mut buf, 3, self.ct_hash_ct.as_slice());
        assert(buf@ =~= signed_pack_bytes(self.src_ct@, self.ct_hash@, self.ct_hash_ct@));
        buf
    }
}

impl MsgId {
    /// The wire form of this message.
    pub fn encode_to_vec(&self) -> (r: Vec<u8>)
        ensures
            r@ == msg_id_bytes(self.msg_key@, self.ct_hash@, self.src_ct@, self.sign@),
    {
        let mut buf: Vec<u8> = Vec::new();
        push_bytes_field(&mut buf, 1, self.msg_key.as_slice());
        push_bytes_field(&mut buf, 2, self.ct_hash.as_slice());
        push_bytes_field(&mut buf, 3, self.src_ct.as_slice());
        push_bytes_field(&mut buf, 4, self.sign.as_slice());
        assert(buf@ =~= msg_id_bytes(self.msg_key@, self.ct_hash@, self.src_ct@, self.sign@));
        buf
    }
}

impl Msg {
    /// The wire form of this message.
    pub fn encode_to_vec(&self) -> (r: Vec<u8>)
        ensures
            r@ == msg_bytes(self.id_bs@, self.body@),
    {
        let mut buf: Vec<u8> = Vec::new();
        push_bytes_field(&mut buf, 1, self.id_bs.as_slice());
        push_bytes_field(&mut buf, 2, self.body.as_slice());
        assert(buf@ =~= msg_bytes(self.id_bs@, self.body@));
        buf
    }
}

} // verus!
