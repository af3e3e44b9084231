//! The layout of identifier archives in the exchange server's key-value
//! store: which keys hold an archive's parts, and how an archive is read
//! back from them.

use crate::bytes::array_to_vec;
use crate::crypto::{Digest, SymK};
use vstd::prelude::*;

verus! {

/// What the exchange server keeps of a message identifier: the key that
/// encrypts the source, and the message ciphertext.
pub struct IdArchive {
    pub id_key: SymK,
    pub ct: Vec<u8>,
}

/// The key prefix `id_archive/id_key/`.
pub open spec fn id_key_prefix() -> Seq<u8> {
    seq![105u8, 100, 95, 97, 114, 99, 104, 105, 118, 101, 47, 105, 100, 95, 107, 101, 121, 47]
}

/// The key prefix `id_archive/ct/`.
pub open spec fn ct_prefix() -> Seq<u8> {
    seq![105u8, 100, 95, 97, 114, 99, 104, 105, 118, 101, 47, 99, 116, 47]
}

/// The store key of the identifier key archived for ciphertext hash `h`.
pub open spec fn id_key_db_key_spec(h: Seq<u8>) -> Seq<u8> {
    id_key_prefix() + h
}

/// The store key of the ciphertext archived for ciphertext hash `h`.
pub open spec fn ct_db_key_spec(h: Seq<u8>) -> Seq<u8> {
    ct_prefix() + h
}

/// A store after the archive `(id_key, ct)` is put under hash `h`.
pub open spec fn store_put_archive(
    store: Map<Seq<u8>, Seq<u8>>,
    h: Seq<u8>,
    id_key: Seq<u8>,
    ct: Seq<u8>,
) -> Map<Seq<u8>, Seq<u8>> {
    store.insert(id_key_db_key_spec(h), id_key).insert(ct_db_key_spec(h), ct)
}

/// The archive `(id_key, ct)` that a store holds under hash `h`, if it
/// holds both parts.
pub open spec fn store_get_archive(store: Map<Seq<u8>, Seq<u8>>, h: Seq<u8>) -> Option<
    (Seq<u8>, Seq<u8>),
> {
    if store.dom().contains(id_key_db_key_spec(h)) && store.dom().contains(ct_db_key_spec(h)) {
        Some((store[id_key_db_key_spec(h)], store[ct_db_key_spec(h)]))
    } else {
        None
    }
}

/// Appends `tail` to `buf`.
fn push_all(buf: &mut Vec<u8>, tail: &[u8])
    ensures
        final(buf)@ == old(buf)@ + tail@,
{
    let mut i: usize = 0;
    while i < tail.len()
        invariant
            i <= tail@.len(),
            buf@ == old(buf)@ + tail@.subrange(0, i as int),
        decreases tail@.len() - i,
    {
        buf.push(tail[i]);
        assert(tail@.subrange(0, i + 1) =~= tail@.subrange(0, i as int).push(tail@[i as int]));
        i = i + 1;
    }
    assert(tail@.subrange(0, tail@.len() as int) =~= tail@);
}

/// The store key of the identifier key archived for `ct_hash`.
pub fn id_key_db_key(ct_hash: &Digest) -> (r: Vec<u8>)
    ensures
        r@ == id_key_db_key_spec(ct_hash@),
{
    let mut r: Vec<u8> = vec![105u8, 100, 95, 97, 114, 99, 104, 105, 118, 101, 47, 105, 100, 95, 107, 101, 121, 47];
    assert(r@ =~= id_key_prefix());
    push_all(&mut r, ct_hash);
    r
}

/// The store key of the ciphertext archived for `ct_hash`.
pub fn ct_db_key(ct_hash: &Digest) -> (r: Vec<u8>)
    ensures
        r@ == ct_db_key_spec(ct_hash@),
{
    let mut r: Vec<u8> = vec![105u8, 100, 95, 97, 114, 99, 104, 105, 118, 101, 47, 99, 116, 47];
    assert(r@ =~= ct_prefix());
    push_all(&mut r, ct_hash);
    r
}

/// The two writes that put `id_ar` under `ct_hash`, in order: the
/// identifier key, then the ciphertext, each as (store key, value).
pub fn id_archive_puts(ct_hash: &Digest, id_ar: IdArchive) -> (r: ((Vec<u8>, Vec<u8>), (Vec<u8>, Vec<u8>)))
    ensures
        r.0.0@ == id_key_db_key_spec(ct_hash@),
        r.0.1@ == id_ar.id_key@,
        r.1.0@ == ct_db_key_spec(ct_hash@),
        r.1.1@ == id_ar.ct@,
{
    let k1 = id_key_db_key(ct_hash);
    let v1 = array_to_vec(&id_ar.id_key);
    let k2 = ct_db_key(ct_hash);
    ((k1, v1), (k2, id_ar.ct))
}

/// The archive read back from the values found under its two store keys:
/// `None` where either is missing. An identifier key that is not 28 bytes
/// long is a corrupt store, which `requires` rules out.
pub fn id_archive_from_stored(id_key: Option<Vec<u8>>, ct: Option<Vec<u8>>) -> (r: Option<IdArchive>)
    requires
        id_key is Some && ct is Some ==> id_key.unwrap()@.len() == 28,
    ensures
        r is Some <==> (id_key is Some && ct is Some),
        r matches Some(a) ==> a.id_key@ == id_key.unwrap()@ && a.ct@ == ct.unwrap()@,
{
    match id_key {
        None => None,
        Some(k) => match ct {
            None => None,
            Some(c) => Some(IdArchive { id_key: crate::bytes::slice_to_array::<28>(k.as_slice()), ct: c }),
        },
    }
}

/// The store keys of an archive's two parts never meet, neither across
/// parts nor across hashes: two keys of one part are equal only for equal
/// hashes of the same length.
pub proof fn lemma_archive_keys_distinct(h1: Seq<u8>, h2: Seq<u8>)
    ensures
        id_key_db_key_spec(h1) != ct_db_key_spec(h2),
        h1.len() == h2.len() && id_key_db_key_spec(h1) == id_key_db_key_spec(h2) ==> h1 == h2,
        h1.len() == h2.len() && ct_db_key_spec(h1) == ct_db_key_spec(h2) ==> h1 == h2,
{
    assert(id_key_db_key_spec(h1)[11] == 105u8);
    assert(ct_db_key_spec(h2)[11] == 99u8);
    if h1.len() == h2.len() && id_key_db_key_spec(h1) == id_key_db_key_spec(h2) {
        assert(h1 =~= id_key_db_key_spec(h1).subrange(18, 18 + h1.len() as int));
        assert(h2 =~= id_key_db_key_spec(h2).subrange(18, 18 + h2.len() as int));
    }
    if h1.len() == h2.len() && ct_db_key_spec(h1) == ct_db_key_spec(h2) {
        assert(h1 =~= ct_db_key_spec(h1).subrange(14, 14 + h1.len() as int));
        assert(h2 =~= ct_db_key_spec(h2).subrange(14, 14 + h2.len() as int));
    }
}

/// Reading an archive back from the store right after it was put there
/// gives the archive.
pub proof fn lemma_get_after_put(store: Map<Seq<u8>, Seq<u8>>, h: Seq<u8>, id_key: Seq<u8>, ct: Seq<u8>)
    ensures
        store_get_archive(store_put_archive(store, h, id_key, ct), h) == Some((id_key, ct)),
{
    lemma_archive_keys_distinct(h, h);
}

/// Putting an archive under one hash leaves the archive under any other
/// hash of the same length as it was.
pub proof fn lemma_put_keeps_others(
    store: Map<Seq<u8>, Seq<u8>>,
    h: Seq<u8>,
    other: Seq<u8>,
    id_key: Seq<u8>,
    ct: Seq<u8>,
)
    requires
        h.len() == other.len(),
        h != other,
    ensures
        store_get_archive(store_put_archive(store, h, id_key, ct), other) == store_get_archive(store, other),
{
    lemma_archive_keys_distinct(h, other);
    lemma_archive_keys_distinct(other, h);
}

} // verus!
