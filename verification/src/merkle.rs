use vstd::prelude::*;

use crate::hashing::{push_bytes, push_u32_le, sha256, sha256_digest, u32_le_bytes};
use crate::pubkey::Pubkey;

verus! {

/// Lexicographic `a <= b` on byte strings of equal length (the order of Rust's `[u8; 32]`).
pub open spec fn lex_le(a: Seq<u8>, b: Seq<u8>) -> bool {
    ||| a == b
    ||| exists|k: int| 0 <= k < a.len() && k < b.len() && a.take(k) == b.take(k) && a[k] < b[k]
}

/// The parent of two nodes: the hash of the smaller node followed by the larger one.
pub open spec fn node_hash(a: Seq<u8>, b: Seq<u8>) -> Seq<u8> {
    if lex_le(a, b) {
        sha256(a + b)
    } else {
        sha256(b + a)
    }
}

/// The leaf that commits to a user's score: `sha256(user || score as little-endian u32)`.
pub open spec fn merkle_leaf(user: Seq<u8>, score: u32) -> Seq<u8> {
    sha256(user + u32_le_bytes(score))
}

/// The root reached from `leaf` by hashing in each sibling of `proof` in turn.
pub open spec fn proof_root(leaf: Seq<u8>, proof: Seq<Seq<u8>>) -> Seq<u8>
    decreases proof.len(),
{
    if proof.len() == 0 {
        leaf
    } else {
        node_hash(proof_root(leaf, proof.drop_last()), proof.last())
    }
}

/// The siblings of a proof as byte strings.
pub open spec fn proof_view(proof: Seq<[u8; 32]>) -> Seq<Seq<u8>> {
    proof.map_values(|s: [u8; 32]| s@)
}

/// Byte-wise equality of two 32-byte strings.
pub fn bytes32_equal(a: &[u8; 32], b: &[u8; 32]) -> (r: bool)
    ensures
        r == (a@ == b@),
{
    let mut i: usize = 0;
    while i < 32
        invariant
            0 <= i <= 32,
            a@.len() == 32,
            b@.len() == 32,
            forall|j: int| 0 <= j < i ==> a@[j] == b@[j],
        decreases 32 - i,
    {
        if a[i] != b[i] {
            return false;
        }
        i = i + 1;
    }
    assert(a@ =~= b@);
    true
}

/// The leaf for `user` with `score`.
pub fn compute_merkle_leaf(user: &Pubkey, score: u32) -> (leaf: [u8; 32])
    ensures
        leaf@ == merkle_leaf(user@, score),
{
    let mut message: Vec<u8> = Vec::new();
    push_bytes(&mut message, &user.0);
    push_u32_le(&mut message, score);
    assert(message@ =~= user@ + u32_le_bytes(score));
    sha256_digest(message.as_slice())
}

/// Lexicographic `a <= b`.
fn bytes_le(a: &[u8; 32], b: &[u8; 32]) -> (r: bool)
    ensures
        r == lex_le(a@, b@),
{
    let mut i: usize = 0;
    while i < 32
        invariant
            0 <= i <= 32,
            a@.len() == 32,
            b@.len() == 32,
            a@.take(i as int) == b@.take(i as int),
        decreases 32 - i,
    {
        if a[i] != b[i] {
            proof {
                lemma_first_difference_decides(a@, b@, i as int);
            }
            return a[i] < b[i];
        }
        assert(a@.take(i + 1) =~= a@.take(i as int).push(a@[i as int]));
        assert(b@.take(i + 1) =~= b@.take(i as int).push(b@[i as int]));
        i = i + 1;
    }
    assert(a@ =~= a@.take(32));
    assert(b@ =~= b@.take(32));
    true
}

/// At the first position where two equal-length strings differ, that position decides
/// their order.
proof fn lemma_first_difference_decides(a: Seq<u8>, b: Seq<u8>, i: int)
    requires
        a.len() == b.len(),
        0 <= i < a.len(),
        a.take(i) == b.take(i),
        a[i] != b[i],
    ensures
        lex_le(a, b) == (a[i] < b[i]),
        lex_le(b, a) == (b[i] < a[i]),
{
    assert(a != b) by {
        assert(a[i] != b[i]);
    }
    if a[i] < b[i] {
        assert(exists|k: int| 0 <= k < a.len() && k < b.len() && a.take(k) == b.take(k) && a[k] < b[k]);
    } else {
        assert forall|k: int| 0 <= k < a.len() && k < b.len() && a.take(k) == b.take(k) implies !(a[k]
            < b[k]) by {
            if k < i {
                assert(a[k] == a.take(i)[k]);
                assert(b[k] == b.take(i)[k]);
            } else if k > i {
                assert(a[i] == a.take(k)[i]);
                assert(b[i] == b.take(k)[i]);
            }
        }
    }
    if b[i] < a[i] {
        assert(exists|k: int| 0 <= k < b.len() && k < a.len() && b.take(k) == a.take(k) && b[k] < a[k]);
    } else {
        assert forall|k: int| 0 <= k < b.len() && k < a.len() && b.take(k) == a.take(k) implies !(b[k]
            < a[k]) by {
            if k < i {
                assert(a[k] == a.take(i)[k]);
                assert(b[k] == b.take(i)[k]);
            } else if k > i {
                assert(a[i] == a.take(k)[i]);
                assert(b[i] == b.take(k)[i]);
            }
        }
    }
}

/// Two distinct strings of equal length that agree before `from` differ at some first
/// position at or after `from`.
proof fn lemma_first_difference_exists(a: Seq<u8>, b: Seq<u8>, from: int) -> (i: int)
    requires
        a.len() == b.len(),
        a != b,
        0 <= from <= a.len(),
        a.take(from) == b.take(from),
    ensures
        from <= i < a.len(),
        a.take(i) == b.take(i),
        a[i] != b[i],
    decreases a.len() - from,
{
    if from == a.len() {
        assert(a =~= a.take(from));
        assert(b =~= b.take(from));
        assert(false);
        from
    } else if a[from] != b[from] {
        from
    } else {
        assert(a.take(from + 1) =~= a.take(from).push(a[from]));
        assert(b.take(from + 1) =~= b.take(from).push(b[from]));
        lemma_first_difference_exists(a, b, from + 1)
    }
}

/// The parent of two nodes.
fn hash_pair(a: &[u8; 32], b: &[u8; 32]) -> (h: [u8; 32])
    ensures
        h@ == node_hash(a@, b@),
{
    let mut message: Vec<u8> = Vec::new();
    if bytes_le(a, b) {
        push_bytes(&mut message, a);
        push_bytes(&mut message, b);
        assert(message@ =~= a@ + b@);
    } else {
        push_bytes(&mut message, b);
        push_bytes(&mut message, a);
        assert(message@ =~= b@ + a@);
    }
    sha256_digest(message.as_slice())
}

/// Whether `proof` leads from `leaf` to `root`.
pub fn verify_merkle_proof<E>(root: &[u8; 32], leaf: &[u8; 32], proof: &[[u8; 32]]) -> (r: Result<
    bool,
    E,
>)
    ensures
        match r {
            Ok(b) => b == (proof_root(leaf@, proof_view(proof@)) == root@),
            Err(_) => false,
        },
{
    let ghost siblings = proof_view(proof@);
    let mut current: [u8; 32] = *leaf;
    let mut i: usize = 0;
    while i < proof.len()
        invariant
            0 <= i <= proof@.len(),
            siblings == proof_view(proof@),
            current@ == proof_root(leaf@, siblings.take(i as int)),
        decreases proof@.len() - i,
    {
        let sibling = &proof[i];
        current = hash_pair(&current, sibling);
        assert(siblings.take(i + 1).drop_last() =~= siblings.take(i as int));
        i = i + 1;
    }
    assert(siblings.take(proof@.len() as int) =~= siblings);
    Ok(bytes32_equal(&current, root))
}

/// Hashing a pair does not depend on the order of the two nodes.
pub proof fn law_node_hash_commutes(a: Seq<u8>, b: Seq<u8>)
    requires
        a.len() == b.len(),
    ensures
        node_hash(a, b) == node_hash(b, a),
{
    if a != b {
        assert(a.take(0) =~= b.take(0));
        let i = lemma_first_difference_exists(a, b, 0);
        assert(b.take(i) == a.take(i));
        lemma_first_difference_decides(a, b, i);
    }
}

/// An empty proof verifies exactly when the leaf is the root.
pub proof fn law_empty_proof_is_leaf(leaf: Seq<u8>)
    ensures
        proof_root(leaf, Seq::empty()) == leaf,
{
}

} // verus!
