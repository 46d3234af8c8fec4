//! Permutation tables for Perlin noise.
//!
//! The noise texture hashes each lattice corner through three shuffled
//! index tables; the xor of the three table entries picks one of the
//! 256 precomputed gradient vectors. The gradients themselves are
//! floating-point and live with the texture evaluation; this module
//! owns the tables and the hashing, and guarantees that the hash is
//! always a valid gradient index.

use rand::Rng;
use vstd::prelude::*;

verus! {

/// `s` shuffles the integers `0 .. n`: right length, entries in
/// range, no entry repeated.
pub open spec fn is_permutation(s: Seq<i32>, n: int) -> bool {
    &&& s.len() == n
    &&& forall|k: int| 0 <= k < n ==> 0 <= #[trigger] s[k] < n
    &&& forall|k1: int, k2: int| 0 <= k1 < k2 < n ==> s[k1] != s[k2]
}

/// Relies on rand::Rng::gen_range over `0 .. bound`: the sample lies
/// in the half-open range. The call panics on an empty range, hence
/// the lower bound.
#[verifier::external_body]
fn rand_index(bound: usize) -> (r: usize)
    requires
        bound >= 1,
    ensures
        r < bound,
{
    rand::thread_rng().gen_range(0..bound)
}

/// Shuffles the identity table `0 .. point_count` by swapping each
/// slot, from the back, with a randomly chosen earlier slot. Whatever
/// the random draws, the result is a permutation.
pub fn perlin_generate_perm(point_count: usize) -> (p: Vec<i32>)
    requires
        point_count <= i32::MAX,
    ensures
        is_permutation(p@, point_count as int),
{
    let mut p: Vec<i32> = Vec::new();
    let mut k: usize = 0;
    while k < point_count
        invariant
            k <= point_count,
            point_count <= i32::MAX,
            p@.len() == k,
            forall|m: int| 0 <= m < k ==> #[trigger] p@[m] == m,
        decreases point_count - k,
    {
        p.push(k as i32);
        k = k + 1;
    }
    if point_count > 1 {
        let mut i: usize = point_count - 1;
        while i >= 1
            invariant
                i < point_count,
                p@.len() == point_count,
                forall|m: int| 0 <= m < point_count ==> 0 <= #[trigger] p@[m] < point_count,
                forall|k1: int, k2: int|
                    0 <= k1 < k2 < point_count ==> p@[k1] != p@[k2],
            decreases i,
        {
            let target: usize = rand_index(i);
            let a: i32 = p[i];
            let b: i32 = p[target];
            p.set(i, b);
            p.set(target, a);
            i = i - 1;
        }
    }
    p
}

/// The three shuffled index tables of a Perlin noise field.
pub struct PerlinPerms {
    perm_x: Vec<i32>,
    perm_y: Vec<i32>,
    perm_z: Vec<i32>,
}

impl PerlinPerms {
    pub closed spec fn spec_perm_x(self) -> Seq<i32> {
        self.perm_x@
    }

    pub closed spec fn spec_perm_y(self) -> Seq<i32> {
        self.perm_y@
    }

    pub closed spec fn spec_perm_z(self) -> Seq<i32> {
        self.perm_z@
    }

    /// The tables each shuffle `0 .. 256`, matching the 256 gradient
    /// vectors and the eight-bit lattice mask.
    pub open spec fn wf(self) -> bool {
        &&& is_permutation(self.spec_perm_x(), 256)
        &&& is_permutation(self.spec_perm_y(), 256)
        &&& is_permutation(self.spec_perm_z(), 256)
    }

    /// Draws three independently shuffled tables of `point_count`
    /// entries each.
    pub fn new(point_count: usize) -> (perms: PerlinPerms)
        requires
            point_count <= i32::MAX,
        ensures
            is_permutation(perms.spec_perm_x(), point_count as int),
            is_permutation(perms.spec_perm_y(), point_count as int),
            is_permutation(perms.spec_perm_z(), point_count as int),
            point_count == 256 ==> perms.wf(),
    {
        let perm_x = perlin_generate_perm(point_count);
        let perm_y = perlin_generate_perm(point_count);
        let perm_z = perlin_generate_perm(point_count);
        PerlinPerms { perm_x, perm_y, perm_z }
    }

    /// The corner hash of lattice corner `(si, sj, sk)`: each
    /// coordinate masked to eight bits, sent through its table, and
    /// the three entries xor-ed.
    pub open spec fn corner_hash(self, si: i32, sj: i32, sk: i32) -> i32 {
        self.spec_perm_x()[(si & 255) as int] ^ self.spec_perm_y()[(sj & 255) as int]
            ^ self.spec_perm_z()[(sk & 255) as int]
    }

    /// Hashes lattice corner `(i + di, j + dj, k + dk)` to a gradient
    /// index: the corner hash of the summed coordinates, which always
    /// addresses one of the 256 gradients.
    pub fn index(&self, i: i32, j: i32, k: i32, di: i32, dj: i32, dk: i32) -> (r: usize)
        requires
            self.wf(),
            i + di <= i32::MAX,
            j + dj <= i32::MAX,
            k + dk <= i32::MAX,
            i + di >= i32::MIN,
            j + dj >= i32::MIN,
            k + dk >= i32::MIN,
        ensures
            r < 256,
            r == self.corner_hash((i + di) as i32, (j + dj) as i32, (k + dk) as i32),
    {
        let si: i32 = i + di;
        let sj: i32 = j + dj;
        let sk: i32 = k + dk;
        assert(0 <= (si & 255) < 256) by (bit_vector);
        assert(0 <= (sj & 255) < 256) by (bit_vector);
        assert(0 <= (sk & 255) < 256) by (bit_vector);
        let a: i32 = self.perm_x[((si & 255) as usize)];
        let b: i32 = self.perm_y[((sj & 255) as usize)];
        let c: i32 = self.perm_z[((sk & 255) as usize)];
        let h: i32 = a ^ b ^ c;
        assert(0 <= (a ^ b ^ c) < 256) by (bit_vector)
            requires
                0 <= a < 256,
                0 <= b < 256,
                0 <= c < 256,
        ;
        h as usize
    }
}

} // verus!
