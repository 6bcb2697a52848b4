//! The Merkle verifier: a binary hash tree over 64-byte nodes, built with
//! BLAKE2b-512, and the inclusion-proof check that authenticates a witness
//! claim.
//!
//! Root computation pairs adjacent nodes left-to-right, duplicating the last
//! node of a level with an odd count, until one node remains; the empty
//! input has the all-zero root. Proof verification folds the leaf with the
//! sibling path, choosing the argument order by the index's parity at each
//! level, and succeeds exactly when the folded value equals the claimed
//! root.

use vstd::prelude::*;

use crate::pki::PubKey;

verus! {

/// The BLAKE2b-512 digest of a byte sequence, named but left undefined: the
/// verifier only learns that equal inputs give equal outputs.
pub uninterp spec fn blake2b512_of(data: Seq<u8>) -> Seq<u8>;

/// Relies on blake2::Blake2b512 through digest::Digest::digest: the
/// one-shot BLAKE2b-512 hash of `data`, a 64-byte value determined by
/// `data` alone.
#[verifier::external_body]
fn blake2b512(data: &[u8]) -> (out: [u8; 64])
    ensures
        out@ == blake2b512_of(data@),
{
    let digest = <blake2::Blake2b512 as blake2::Digest>::digest(data);
    let mut out = [0u8; 64];
    out.copy_from_slice(&digest);
    out
}

/// The hash of an ordered node pair: BLAKE2b-512 of the concatenation.
pub open spec fn pair_hash(left: Seq<u8>, right: Seq<u8>) -> Seq<u8> {
    blake2b512_of(left + right)
}

/// The defined root of an empty tree: 64 zero bytes.
pub open spec fn zero_root() -> Seq<u8> {
    Seq::new(64, |i: int| 0u8)
}

/// The byte sequences a vector of 64-byte nodes holds.
pub open spec fn node_views(s: Seq<[u8; 64]>) -> Seq<Seq<u8>> {
    s.map_values(|h: [u8; 64]| h@)
}

/// One level of the tree: adjacent nodes are paired left-to-right and
/// hashed; the last node of an odd level is paired with itself.
pub open spec fn level_up(nodes: Seq<Seq<u8>>) -> Seq<Seq<u8>> {
    Seq::new(
        (nodes.len() + 1) / 2,
        |i: int|
            pair_hash(
                nodes[2 * i],
                if 2 * i + 1 < nodes.len() {
                    nodes[2 * i + 1]
                } else {
                    nodes[2 * i]
                },
            ),
    )
}

/// The root of a binary hash tree over `nodes`.
pub open spec fn merkle_root_spec(nodes: Seq<Seq<u8>>) -> Seq<u8>
    decreases nodes.len(),
{
    if nodes.len() == 0 {
        zero_root()
    } else if nodes.len() == 1 {
        nodes[0]
    } else {
        merkle_root_spec(level_up(nodes))
    }
}

/// Folding a node up the tree along a sibling path: the index's parity
/// picks the argument order at each level, and the index halves.
pub open spec fn merkle_fold(node: Seq<u8>, siblings: Seq<Seq<u8>>, index: nat) -> Seq<u8>
    decreases siblings.len(),
{
    if siblings.len() == 0 {
        node
    } else {
        let combined = if index % 2 == 0 {
            pair_hash(node, siblings[0])
        } else {
            pair_hash(siblings[0], node)
        };
        merkle_fold(combined, siblings.drop_first(), index / 2)
    }
}

/// The sibling of node `i` within one level: its pair partner, or the node
/// itself when it ends an odd level.
pub open spec fn sibling_at(nodes: Seq<Seq<u8>>, i: nat) -> Seq<u8> {
    if i % 2 == 0 {
        if i + 1 < nodes.len() {
            nodes[i as int + 1]
        } else {
            nodes[i as int]
        }
    } else {
        nodes[i as int - 1]
    }
}

/// The inclusion proof for leaf `i` of the tree over `nodes`: its sibling
/// at each level, bottom up.
pub open spec fn merkle_proof_spec(nodes: Seq<Seq<u8>>, i: nat) -> Seq<Seq<u8>>
    decreases nodes.len(),
{
    if nodes.len() <= 1 {
        Seq::empty()
    } else {
        seq![sibling_at(nodes, i)] + merkle_proof_spec(level_up(nodes), i / 2)
    }
}

/// Byte-wise equality of two 64-byte nodes.
fn node_eq(a: &[u8; 64], b: &[u8; 64]) -> (r: bool)
    ensures
        r == (a@ == b@),
{
    let mut i: usize = 0;
    while i < 64
        invariant
            i <= 64,
            forall|j: int| 0 <= j < i ==> a@[j] == b@[j],
        decreases 64 - i,
    {
        if a[i] != b[i] {
            return false;
        }
        i += 1;
    }
    assert(a@ =~= b@);
    true
}

/// The hash of an ordered node pair.
fn hash_pair(left: &[u8; 64], right: &[u8; 64]) -> (h: [u8; 64])
    ensures
        h@ == pair_hash(left@, right@),
{
    let mut buf: Vec<u8> = Vec::new();
    let mut i: usize = 0;
    while i < 64
        invariant
            i <= 64,
            buf@ =~= left@.take(i as int),
        decreases 64 - i,
    {
        buf.push(left[i]);
        i += 1;
    }
    assert(buf@ =~= left@);
    let mut i: usize = 0;
    while i < 64
        invariant
            i <= 64,
            buf@ =~= left@ + right@.take(i as int),
        decreases 64 - i,
    {
        buf.push(right[i]);
        i += 1;
    }
    assert(buf@ =~= left@ + right@);
    blake2b512(buf.as_slice())
}

/// The Merkle leaf standing for one identity: BLAKE2b-512 of its 32 raw
/// bytes.
pub fn compute_leaf_from_wallet(pubkey: &PubKey) -> (leaf: [u8; 64])
    ensures
        leaf@ == blake2b512_of(pubkey@),
{
    blake2b512(pubkey.as_bytes().as_slice())
}

/// Computes the root of the binary hash tree over `hashes`.
pub fn compute_merkle_root(hashes: Vec<[u8; 64]>) -> (root: [u8; 64])
    ensures
        root@ == merkle_root_spec(node_views(hashes@)),
{
    let ghost orig: Seq<Seq<u8>> = node_views(hashes@);
    if hashes.len() == 0 {
        let z = [0u8; 64];
        proof {
            assert(z@ =~= zero_root());
        }
        return z;
    }
    let mut hashes = hashes;
    while hashes.len() > 1
        invariant
            hashes@.len() >= 1,
            merkle_root_spec(node_views(hashes@)) == merkle_root_spec(orig),
        decreases hashes@.len(),
    {
        let ghost cur: Seq<Seq<u8>> = node_views(hashes@);
        let mut next: Vec<[u8; 64]> = Vec::new();
        let n2 = hashes.len() / 2 + hashes.len() % 2;
        let mut j: usize = 0;
        proof {
            assert(n2 == (cur.len() + 1) / 2);
        }
        while j < n2
            invariant
                hashes@.len() >= 2,
                hashes@.len() <= usize::MAX,
                cur == node_views(hashes@),
                n2 == (cur.len() + 1) / 2,
                j <= n2,
                next@.len() == j,
                forall|m: int| 0 <= m < j ==> (#[trigger] next@[m])@ == level_up(cur)[m],
            decreases n2 - j,
        {
            proof {
                assert(2 * (j as int) < cur.len());
            }
            let l = hashes[2 * j];
            let r = if 2 * j + 1 < hashes.len() {
                hashes[2 * j + 1]
            } else {
                l
            };
            let h = hash_pair(&l, &r);
            proof {
                assert(h@ == level_up(cur)[j as int]);
            }
            next.push(h);
            j += 1;
        }
        proof {
            assert(node_views(next@) =~= level_up(cur));
            assert(merkle_root_spec(level_up(cur)) == merkle_root_spec(cur));
            assert(level_up(cur).len() == (cur.len() + 1) / 2 < cur.len());
        }
        hashes = next;
    }
    let root = hashes[0];
    proof {
        assert(merkle_root_spec(node_views(hashes@)) == node_views(hashes@)[0]);
    }
    root
}

/// Verifies an inclusion proof: folds `leaf` with the sibling path and
/// compares the result with the claimed root.
pub fn verify_merkle_proof(
    leaf: [u8; 64],
    proof: Vec<[u8; 64]>,
    merkle_root: [u8; 64],
    index: usize,
) -> (ok: bool)
    ensures
        ok == (merkle_fold(leaf@, node_views(proof@), index as nat) == merkle_root@),
{
    let mut node = leaf;
    let mut idx = index;
    let mut k: usize = 0;
    proof {
        assert(node_views(proof@).skip(0) =~= node_views(proof@));
    }
    while k < proof.len()
        invariant
            k <= proof@.len(),
            merkle_fold(leaf@, node_views(proof@), index as nat) == merkle_fold(
                node@,
                node_views(proof@).skip(k as int),
                idx as nat,
            ),
        decreases proof@.len() - k,
    {
        let sib = proof[k];
        let combined = if idx % 2 == 0 {
            hash_pair(&node, &sib)
        } else {
            hash_pair(&sib, &node)
        };
        proof {
            let rest = node_views(proof@).skip(k as int);
            assert(rest[0] == sib@);
            assert(rest.drop_first() =~= node_views(proof@).skip(k as int + 1));
        }
        node = combined;
        idx = idx / 2;
        k += 1;
    }
    proof {
        assert(node_views(proof@).skip(proof@.len() as int) =~= Seq::<Seq<u8>>::empty());
    }
    node_eq(&node, &merkle_root)
}

/// Law: a proof taken out of the tree itself verifies — folding leaf `i`
/// of any tree along its own sibling path yields that tree's root.
pub proof fn lemma_valid_proof_verifies(nodes: Seq<Seq<u8>>, i: nat)
    requires
        i < nodes.len(),
    ensures
        merkle_fold(nodes[i as int], merkle_proof_spec(nodes, i), i) == merkle_root_spec(nodes),
    decreases nodes.len(),
{
    if nodes.len() == 1 {
    } else {
        let up = level_up(nodes);
        let sib = sibling_at(nodes, i);
        let path = merkle_proof_spec(nodes, i);
        assert(path[0] == sib);
        assert(path.drop_first() =~= merkle_proof_spec(up, i / 2));
        let combined = if i % 2 == 0 {
            pair_hash(nodes[i as int], sib)
        } else {
            pair_hash(sib, nodes[i as int])
        };
        assert(combined == up[i as int / 2]);
        assert(i / 2 < up.len());
        lemma_valid_proof_verifies(up, i / 2);
    }
}

/// Law: verification is a pure function of its inputs — any two results
/// that meet `verify_merkle_proof`'s contract on identical inputs are
/// identical.
pub proof fn lemma_verify_deterministic(
    leaf: [u8; 64],
    proof: Seq<[u8; 64]>,
    merkle_root: [u8; 64],
    index: usize,
    r1: bool,
    r2: bool,
)
    requires
        r1 == (merkle_fold(leaf@, node_views(proof), index as nat) == merkle_root@),
        r2 == (merkle_fold(leaf@, node_views(proof), index as nat) == merkle_root@),
    ensures
        r1 == r2,
{
}

} // verus!
