//! Permutation tables and lattice hashing for Perlin gradient noise.
//!
//! A generator keeps one shuffled copy of `0..256` per axis. At a lattice
//! corner the three tables are read at the masked corner coordinates and the
//! entries are combined with exclusive-or; the result indexes the table of
//! random gradient vectors. Everything discrete about that scheme is proved
//! here: the shuffle really yields a permutation, and the hash always lands
//! inside the gradient table.

use vstd::prelude::*;

verus! {

use vstd::seq_lib::group_to_multiset_ensures;
use crate::random_int;

/// The identity permutation `0, 1, ..., n - 1`.
pub open spec fn identity_perm(n: nat) -> Seq<i32> {
    Seq::new(n, |i: int| i as i32)
}

/// Masked lattice coordinate: the low eight bits of `x`, an index in
/// `[0, 256)` whatever the sign of `x`.
pub open spec fn lattice_mask(x: i32) -> int {
    (x & 255) as int
}

/// The gradient slot chosen for the lattice corner `(x, y, z)`: the
/// exclusive-or of the three per-axis table entries at the masked
/// coordinates.
pub open spec fn grad_hash(px: Seq<i32>, py: Seq<i32>, pz: Seq<i32>, x: i32, y: i32, z: i32) -> int {
    (px[lattice_mask(x)] ^ py[lattice_mask(y)] ^ pz[lattice_mask(z)]) as int
}

/// One axis of the lattice hash: a shuffled copy of `0..n`.
#[derive(Debug, Clone, PartialEq)]
pub struct PerlinPerm {
    pub perm: Vec<i32>,
}

impl PerlinPerm {
    /// The table holds exactly the values `0..n`, each once, in some order.
    pub open spec fn is_permutation(&self, n: nat) -> bool {
        &&& self.perm@.len() == n
        &&& self.perm@.to_multiset() == identity_perm(n).to_multiset()
    }

    /// Fit for lattice hashing: 256 entries, each a valid index into a
    /// table of 256 gradient vectors.
    pub open spec fn wf(&self) -> bool {
        &&& self.perm@.len() == 256
        &&& forall|t: int| 0 <= t < 256 ==> 0 <= #[trigger] self.perm@[t] < 256
    }

    pub fn new(perm: Vec<i32>) -> (r: Self)
        ensures
            r.perm == perm,
    {
        PerlinPerm { perm }
    }

    /// Shuffle `0..n` in place, Fisher-Yates style: walk the indices from the
    /// top down and swap each with a random position at or below it. The
    /// result is a permutation of `0..n` for every outcome of the draws.
    pub fn generate(n: usize) -> (r: Self)
        requires
            n <= 0x7fff_ffff,
        ensures
            r.is_permutation(n as nat),
    {
        let mut arr: Vec<i32> = Vec::new();
        let mut i: usize = 0;
        while i < n
            invariant
                i <= n,
                n <= 0x7fff_ffff,
                arr@ == identity_perm(i as nat),
            decreases n - i,
        {
            arr.push(i as i32);
            proof {
                assert(arr@ =~= identity_perm((i + 1) as nat));
            }
            i = i + 1;
        }
        if n > 1 {
            let mut i: usize = n - 1;
            while i >= 1
                invariant
                    i <= n - 1,
                    n <= 0x7fff_ffff,
                    arr@.len() == n,
                    arr@.to_multiset() == identity_perm(n as nat).to_multiset(),
                decreases i,
            {
                let target_i: i32 = random_int(0, i as i32);
                let target: usize = target_i as usize;
                let ghost pre = arr@;
                let a: i32 = arr[i];
                let b: i32 = arr[target];
                arr.set(i, b);
                arr.set(target, a);
                proof {
                    broadcast use group_to_multiset_ensures;
                    let m = pre.to_multiset();
                    let s1 = pre.update(i as int, b);
                    assert(pre[i as int] == a && pre[target as int] == b);
                    assert(pre.contains(a) && pre.contains(b));
                    assert(m.count(a) > 0 && m.count(b) > 0);
                    assert(s1.to_multiset() == m.insert(b).remove(a));
                    assert(s1[target as int] == b);
                    assert(arr@ == s1.update(target as int, a));
                    assert(arr@.to_multiset() == s1.to_multiset().insert(a).remove(b));
                    assert(arr@.to_multiset() =~= m);
                }
                i = i - 1;
            }
        }
        PerlinPerm { perm: arr }
    }

    /// A freshly shuffled table of the canonical 256 entries, ready to be
    /// read by the lattice hash.
    pub fn generate_table() -> (r: Self)
        ensures
            r.is_permutation(256),
            r.wf(),
    {
        let p = PerlinPerm::generate(256);
        proof {
            lemma_permutation_wf(&p);
        }
        p
    }
}

/// A table that holds each value of `0..n` once can only hold values below
/// `n`: every entry is somewhere in the identity table.
pub proof fn lemma_permutation_in_range(p: &PerlinPerm, n: nat)
    requires
        p.is_permutation(n),
        n <= 0x8000_0000,
    ensures
        forall|t: int| 0 <= t < n ==> 0 <= #[trigger] p.perm@[t] < n,
{
    broadcast use group_to_multiset_ensures;
    assert forall|t: int| 0 <= t < n implies 0 <= #[trigger] p.perm@[t] < n by {
        let v = p.perm@[t];
        assert(p.perm@.contains(v));
        assert(p.perm@.to_multiset().count(v) > 0);
        assert(identity_perm(n).to_multiset().count(v) > 0);
        assert(identity_perm(n).contains(v));
        let u = choose|u: int| 0 <= u < identity_perm(n).len() && identity_perm(n)[u] == v;
        assert(identity_perm(n)[u] == u as i32);
        assert(v == u as i32 && 0 <= u < n);
        assert(0 <= v < n);
    }
}

/// A freshly generated table of length 256 is ready for lattice hashing.
pub proof fn lemma_permutation_wf(p: &PerlinPerm)
    requires
        p.is_permutation(256),
    ensures
        p.wf(),
{
    lemma_permutation_in_range(p, 256);
}

/// Pick the gradient slot for the lattice corner `(x, y, z)`. The masked
/// table reads stay inside the tables and the combined result stays inside
/// a 256-entry gradient table.
pub fn gradient_index(px: &PerlinPerm, py: &PerlinPerm, pz: &PerlinPerm, x: i32, y: i32, z: i32) -> (r: usize)
    requires
        px.wf(),
        py.wf(),
        pz.wf(),
    ensures
        r == grad_hash(px.perm@, py.perm@, pz.perm@, x, y, z),
        r < 256,
{
    proof {
        assert(0 <= (x & 255) < 256 && 0 <= (y & 255) < 256 && 0 <= (z & 255) < 256)
            by (bit_vector);
    }
    let xi: usize = (x & 255) as usize;
    let yi: usize = (y & 255) as usize;
    let zi: usize = (z & 255) as usize;
    let a: i32 = px.perm[xi];
    let b: i32 = py.perm[yi];
    let c: i32 = pz.perm[zi];
    proof {
        assert(0 <= (a ^ b ^ c) < 256) by (bit_vector)
            requires
                0 <= a < 256,
                0 <= b < 256,
                0 <= c < 256,
        ;
    }
    (a ^ b ^ c) as usize
}

} // verus!
