//! The Merkle commitment over an ordered sequence of 32-byte leaf hashes.

use vstd::prelude::*;
use crate::hash::{digest, digest_collision_exists, sha256};

verus! {

/// The all-zero root that stands for "no transactions".
pub open spec fn zero_hash() -> Seq<u8> {
    Seq::new(32, |i: int| 0u8)
}

/// The parent of two nodes: the hash of their 64-byte concatenation.
pub open spec fn hash_pair(a: Seq<u8>, b: Seq<u8>) -> Seq<u8> {
    digest(a + b)
}

/// The right-hand partner of entry `2 * i`: the entry after it, or the entry
/// itself when it is the last of a level of odd length.
pub open spec fn partner(level: Seq<Seq<u8>>, i: int) -> Seq<u8> {
    if 2 * i + 1 < level.len() {
        level[2 * i + 1]
    } else {
        level[2 * i]
    }
}

/// One reduction step: adjacent entries paired and hashed.
pub open spec fn next_level(level: Seq<Seq<u8>>) -> Seq<Seq<u8>> {
    Seq::new(((level.len() + 1) / 2) as nat, |i: int| hash_pair(level[2 * i], partner(level, i)))
}

/// The single hash that repeated reduction leaves of a non-empty level.
pub open spec fn reduce(level: Seq<Seq<u8>>) -> Seq<u8>
    decreases level.len(),
{
    if level.len() <= 1 {
        level[0]
    } else {
        reduce(next_level(level))
    }
}

/// The Merkle root of `leaves`.
pub open spec fn merkle_root_spec(leaves: Seq<Seq<u8>>) -> Seq<u8> {
    if leaves.len() == 0 {
        zero_hash()
    } else {
        reduce(leaves)
    }
}

/// The byte sequences held by a sequence of 32-byte arrays.
pub open spec fn hash_views(hashes: Seq<[u8; 32]>) -> Seq<Seq<u8>> {
    hashes.map_values(|h: [u8; 32]| h@)
}

/// Every entry of `level` is 32 bytes long.
pub open spec fn all_sized(level: Seq<Seq<u8>>) -> bool {
    forall|i: int| 0 <= i < level.len() ==> (#[trigger] level[i]).len() == 32
}

fn concat_pair(a: &[u8; 32], b: &[u8; 32]) -> (r: Vec<u8>)
    ensures
        r@ == a@ + b@,
{
    let mut r: Vec<u8> = Vec::with_capacity(64);
    let mut i: usize = 0;
    while i < 32
        invariant
            i <= 32,
            r@ == a@.subrange(0, i as int),
        decreases 32 - i,
    {
        r.push(a[i]);
        i += 1;
    }
    assert(a@.subrange(0, 32) =~= a@);
    let mut j: usize = 0;
    while j < 32
        invariant
            j <= 32,
            r@ == a@ + b@.subrange(0, j as int),
        decreases 32 - j,
    {
        r.push(b[j]);
        j += 1;
        assert(r@ =~= a@ + b@.subrange(0, j as int));
    }
    assert(b@.subrange(0, 32) =~= b@);
    r
}

fn hash_two(a: &[u8; 32], b: &[u8; 32]) -> (r: [u8; 32])
    ensures
        r@ == hash_pair(a@, b@),
{
    let buf = concat_pair(a, b);
    sha256(buf.as_slice())
}

fn reduce_level(level: &Vec<[u8; 32]>) -> (r: Vec<[u8; 32]>)
    requires
        level.len() >= 1,
    ensures
        r@.len() == (level.len() + 1) / 2,
        hash_views(r@) == next_level(hash_views(level@)),
{
    let n = level.len();
    let half = n / 2 + n % 2;
    let ghost lv = hash_views(level@);
    let mut next: Vec<[u8; 32]> = Vec::new();
    let mut i: usize = 0;
    while i < half
        invariant
            n == level.len(),
            half == (n + 1) / 2,
            lv == hash_views(level@),
            i <= half,
            next@.len() == i,
            forall|k: int| 0 <= k < i ==> (#[trigger] next@[k])@ == next_level(lv)[k],
        decreases half - i,
    {
        let left = level[2 * i];
        let right = if 2 * i + 1 < n {
            level[2 * i + 1]
        } else {
            level[2 * i]
        };
        let h = hash_two(&left, &right);
        assert(h@ == next_level(lv)[i as int]);
        next.push(h);
        i += 1;
    }
    assert(hash_views(next@) =~= next_level(lv));
    next
}

/// The Merkle root of `leaves`: all zeros for no leaves, the leaf itself for
/// one, and otherwise the last hash left by pairing adjacent entries (the
/// last entry of an odd level paired with itself) until one remains.
pub fn compute_merkle_root(leaves: &[[u8; 32]]) -> (r: [u8; 32])
    ensures
        r@ == merkle_root_spec(hash_views(leaves@)),
{
    if leaves.len() == 0 {
        let z = [0u8; 32];
        assert(z@ =~= zero_hash());
        return z;
    }
    let mut level: Vec<[u8; 32]> = vstd::slice::slice_to_vec(leaves);
    while level.len() > 1
        invariant
            level.len() >= 1,
            reduce(hash_views(level@)) == reduce(hash_views(leaves@)),
        decreases level.len(),
    {
        let next = reduce_level(&level);
        assert(reduce(hash_views(level@)) == reduce(hash_views(next@)));
        level = next;
    }
    level[0]
}

/// The root of no leaves is 32 zero bytes, and the root of one leaf is that
/// leaf, unhashed.
pub proof fn lemma_merkle_trivial(h: Seq<u8>)
    ensures
        merkle_root_spec(Seq::empty()) == zero_hash(),
        merkle_root_spec(seq![h]) == h,
{
}

proof fn lemma_next_level_sized(level: Seq<Seq<u8>>)
    ensures
        all_sized(next_level(level)),
{
}

/// Two leaf sequences of one length, with 32-byte leaves, have equal roots
/// only if they are equal or the hash has a collision.
pub proof fn lemma_merkle_injective(s: Seq<Seq<u8>>, t: Seq<Seq<u8>>)
    requires
        s.len() == t.len(),
        s.len() >= 1,
        all_sized(s),
        all_sized(t),
        merkle_root_spec(s) == merkle_root_spec(t),
    ensures
        s == t || digest_collision_exists(),
    decreases s.len(),
{
    if s.len() == 1 {
        assert(s =~= t);
    } else {
        let ns = next_level(s);
        let nt = next_level(t);
        lemma_next_level_sized(s);
        lemma_next_level_sized(t);
        lemma_merkle_injective(ns, nt);
        if ns == nt {
            if forall|k: int| 0 <= k < s.len() ==> s[k] == t[k] {
                assert(s =~= t);
            } else {
                let k = choose|k: int| 0 <= k < s.len() && s[k] != t[k];
                let i = k / 2;
                let x = s[2 * i] + partner(s, i);
                let y = t[2 * i] + partner(t, i);
                assert(ns[i] == nt[i]);
                if x == y {
                    assert(x.subrange(0, 32) =~= s[2 * i]);
                    assert(y.subrange(0, 32) =~= t[2 * i]);
                    assert(x.subrange(32, 64) =~= partner(s, i));
                    assert(y.subrange(32, 64) =~= partner(t, i));
                    assert(false);
                } else {
                    assert(digest(x) == digest(y));
                }
            }
        }
    }
}

/// Reversing a non-palindromic sequence of at least two 32-byte leaves
/// changes the root, unless the hash has a collision.
pub proof fn lemma_merkle_reverse(s: Seq<Seq<u8>>)
    requires
        s.len() >= 2,
        all_sized(s),
        s != s.reverse(),
    ensures
        merkle_root_spec(s) != merkle_root_spec(s.reverse()) || digest_collision_exists(),
{
    let r = s.reverse();
    assert(all_sized(r));
    if merkle_root_spec(s) == merkle_root_spec(r) {
        lemma_merkle_injective(s, r);
    }
}

} // verus!
