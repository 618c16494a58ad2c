//! Small verified helpers over byte vectors: comparison, copying, and the
//! zero-padding that turns a variable-length identifier into the fixed-width
//! field the persisted records use.

use vstd::prelude::*;

verus! {

/// True when the two byte strings hold the same bytes.
pub fn bytes_eq(a: &Vec<u8>, b: &Vec<u8>) -> (r: bool)
    ensures
        r == (a@ == b@),
{
    if a.len() != b.len() {
        return false;
    }
    let mut i: usize = 0;
    while i < a.len()
        invariant
            i <= a.len(),
            a@.len() == b@.len(),
            forall|k: int| 0 <= k < i ==> a@[k] == b@[k],
        decreases a.len() - i,
    {
        if a[i] != b[i] {
            return false;
        }
        i += 1;
    }
    proof {
        assert(a@ =~= b@);
    }
    true
}

/// A fresh vector holding the same bytes as `src`.
pub fn copy_bytes(src: &Vec<u8>) -> (r: Vec<u8>)
    ensures
        r@ == src@,
{
    let mut r: Vec<u8> = Vec::new();
    let mut i: usize = 0;
    while i < src.len()
        invariant
            i <= src.len(),
            r@ == src@.subrange(0, i as int),
        decreases src.len() - i,
    {
        r.push(src[i]);
        proof {
            assert(r@ =~= src@.subrange(0, i + 1));
        }
        i += 1;
    }
    proof {
        assert(r@ =~= src@);
    }
    r
}

/// A fresh vector holding the same nonces as `src`.
pub fn copy_u64s(src: &Vec<u64>) -> (r: Vec<u64>)
    ensures
        r@ == src@,
{
    let mut r: Vec<u64> = Vec::new();
    let mut i: usize = 0;
    while i < src.len()
        invariant
            i <= src.len(),
            r@ == src@.subrange(0, i as int),
        decreases src.len() - i,
    {
        r.push(src[i]);
        proof {
            assert(r@ =~= src@.subrange(0, i + 1));
        }
        i += 1;
    }
    proof {
        assert(r@ =~= src@);
    }
    r
}

/// What zero-padding `id` out to `width` bytes yields.
pub open spec fn padded(id: Seq<u8>, width: int) -> Seq<u8> {
    Seq::new(width as nat, |k: int| if k < id.len() { id[k] } else { 0u8 })
}

/// Zero-pads `id` out to `width` bytes, as the fixed-width record fields
/// demand.
pub fn pad_bytes(id: &Vec<u8>, width: usize) -> (r: Vec<u8>)
    requires
        id@.len() <= width,
    ensures
        r@ == padded(id@, width as int),
{
    let mut r: Vec<u8> = Vec::new();
    let mut i: usize = 0;
    while i < width
        invariant
            i <= width,
            id@.len() <= width,
            r@ == padded(id@, width as int).subrange(0, i as int),
        decreases width - i,
    {
        if i < id.len() {
            r.push(id[i]);
        } else {
            r.push(0u8);
        }
        proof {
            assert(r@ =~= padded(id@, width as int).subrange(0, i + 1));
        }
        i += 1;
    }
    proof {
        assert(r@ =~= padded(id@, width as int));
    }
    r
}

/// True when the fixed-width field `stored` holds exactly the identifier
/// `q`: `q` is a prefix of `stored` and everything after it is zero padding.
pub open spec fn id_matches(stored: Seq<u8>, q: Seq<u8>) -> bool {
    &&& q.len() <= stored.len()
    &&& stored.subrange(0, q.len() as int) == q
    &&& (forall|k: int| q.len() <= k < stored.len() ==> stored[k] == 0u8)
}

/// Compares a fixed-width zero-padded field against an identifier.
pub fn matches_padded(stored: &Vec<u8>, q: &Vec<u8>) -> (r: bool)
    ensures
        r == id_matches(stored@, q@),
{
    if q.len() > stored.len() {
        return false;
    }
    let mut k: usize = 0;
    while k < q.len()
        invariant
            k <= q.len(),
            q@.len() <= stored@.len(),
            forall|t: int| 0 <= t < k ==> stored@[t] == q@[t],
        decreases q.len() - k,
    {
        if stored[k] != q[k] {
            proof {
                assert(stored@.subrange(0, q@.len() as int)[k as int] != q@[k as int]);
            }
            return false;
        }
        k += 1;
    }
    while k < stored.len()
        invariant
            q@.len() <= k <= stored@.len(),
            forall|t: int| 0 <= t < q@.len() ==> stored@[t] == q@[t],
            forall|t: int| q@.len() <= t < k ==> stored@[t] == 0u8,
        decreases stored.len() - k,
    {
        if stored[k] != 0 {
            return false;
        }
        k += 1;
    }
    proof {
        assert(stored@.subrange(0, q@.len() as int) =~= q@);
    }
    true
}

/// A vector of `width` zero bytes.
pub fn zero_bytes(width: usize) -> (r: Vec<u8>)
    ensures
        r@.len() == width,
        forall|k: int| 0 <= k < width ==> r@[k] == 0u8,
{
    let mut r: Vec<u8> = Vec::new();
    let mut i: usize = 0;
    while i < width
        invariant
            i <= width,
            r@.len() == i,
            forall|k: int| 0 <= k < i ==> r@[k] == 0u8,
        decreases width - i,
    {
        r.push(0u8);
        i += 1;
    }
    r
}

/// True when every byte of `v` is zero.
pub fn all_zero(v: &Vec<u8>) -> (r: bool)
    ensures
        r == (forall|k: int| 0 <= k < v@.len() ==> v@[k] == 0u8),
{
    let mut i: usize = 0;
    while i < v.len()
        invariant
            i <= v.len(),
            forall|k: int| 0 <= k < i ==> v@[k] == 0u8,
        decreases v.len() - i,
    {
        if v[i] != 0 {
            return false;
        }
        i += 1;
    }
    true
}

} // verus!
