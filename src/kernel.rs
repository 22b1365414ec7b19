use crate::permutation::valid_table;
use vstd::arithmetic::div_mod::lemma_fundamental_div_mod_converse;
use vstd::prelude::*;

verus! {

/// Index of the lattice cell that holds a coordinate, from the coordinate's
/// truncation toward zero and whether it is positive: the truncation for a
/// positive coordinate, one less otherwise.
pub fn fast_floor(truncated: i32, positive: bool) -> (r: i64)
    ensures
        r == if positive {
            truncated as int
        } else {
            truncated - 1
        },
{
    if positive {
        truncated as i64
    } else {
        truncated as i64 - 1
    }
}

/// The remainder of `x` by a positive `m`, never negative.
pub fn modulo(x: i64, m: i64) -> (r: i64)
    requires
        m > 0,
    ensures
        r == x % m,
        0 <= r < m,
{
    let a = x % m;
    proof {
        if x < 0 {
            let (x, m) = (x as int, m as int);
            let q = (-x) / m;
            let rest = (-x) % m;
            assert(-x == q * m + rest) by (nonlinear_arith)
                requires
                    m > 0,
                    q == (-x) / m,
                    rest == (-x) % m,
            ;
            if rest > 0 {
                assert(x == (-q - 1) * m + (m - rest)) by (nonlinear_arith)
                    requires
                        -x == q * m + rest,
                ;
                lemma_fundamental_div_mod_converse(x, m, -q - 1, m - rest);
            } else {
                assert(x == (-q) * m + 0) by (nonlinear_arith)
                    requires
                        -x == q * m + rest,
                        rest == 0,
                ;
                lemma_fundamental_div_mod_converse(x, m, -q, 0);
            }
        }
    }
    if 0 > a {
        a + m
    } else {
        a
    }
}

/// The gradient that a hash selects, as its coefficients on the offsets
/// (dx, dy): of the hash's low three bits, bit 2 picks which offset is `u`
/// (dx below 4, dy from 4 on), bit 0 negates `u`, and bit 1 gives `v` the
/// factor -2 instead of 2.
pub open spec fn gradient_of(hash: u16) -> (int, int) {
    let h = hash % 8;
    let u: int = if h % 2 == 1 {
        -1
    } else {
        1
    };
    let v: int = if (h / 2) % 2 == 1 {
        -2
    } else {
        2
    };
    if h < 4 {
        (u, v)
    } else {
        (v, u)
    }
}

/// Coefficients `(cx, cy)` of the gradient that `hash` selects: the gradient's
/// value at the offset (dx, dy) is `cx * dx + cy * dy`.
pub fn gradient(hash: u16) -> (r: (i8, i8))
    ensures
        (r.0 as int, r.1 as int) == gradient_of(hash),
{
    let h: u16 = hash & 7;
    assert(h == hash % 8) by (bit_vector)
        requires
            h == hash & 7,
    ;
    assert((h & 1 != 0) == (h % 2 == 1)) by (bit_vector)
        requires
            h < 8,
    ;
    assert((h & 2 != 0) == ((h / 2) % 2 == 1)) by (bit_vector)
        requires
            h < 8,
    ;
    let u: i8 = if h & 1 != 0 {
        -1
    } else {
        1
    };
    let v: i8 = if h & 2 != 0 {
        -2
    } else {
        2
    };
    if 4 > h {
        (u, v)
    } else {
        (v, u)
    }
}

/// The hash of a simplex corner: the table entry at the cell's column (modulo
/// 256) plus `di`, offset by the entry at the cell's row (modulo 256) plus `dj`.
pub open spec fn corner_hash(table: Seq<u16>, i: int, j: int, di: int, dj: int) -> u16 {
    table[i % 256 + di + table[j % 256 + dj] as int]
}

/// The hashes of the three corners of the simplex in cell (i, j): the cell's
/// origin, its neighbour along x (when `x_major`, i.e. the point's offset
/// along x exceeds the one along y) or along y, and the opposite corner.
pub fn corner_hashes(permutation: &[u16; 512], i: i64, j: i64, x_major: bool) -> (r: (
    u16,
    u16,
    u16,
))
    requires
        valid_table(permutation@),
    ensures
        r.0 == corner_hash(permutation@, i as int, j as int, 0, 0),
        r.1 == if x_major {
            corner_hash(permutation@, i as int, j as int, 1, 0)
        } else {
            corner_hash(permutation@, i as int, j as int, 0, 1)
        },
        r.2 == corner_hash(permutation@, i as int, j as int, 1, 1),
{
    let ii = modulo(i, 256) as usize;
    let jj = modulo(j, 256) as usize;
    let (i1, j1): (usize, usize) = if x_major {
        (1, 0)
    } else {
        (0, 1)
    };
    let h0 = permutation[ii + permutation[jj] as usize];
    let h1 = permutation[ii + i1 + permutation[jj + j1] as usize];
    let h2 = permutation[ii + 1 + permutation[jj + 1] as usize];
    (h0, h1, h2)
}

/// Whether every entry of `permutation` is a byte value.
pub fn is_valid_table(permutation: &[u16; 512]) -> (r: bool)
    ensures
        r == valid_table(permutation@),
{
    let mut k: usize = 0;
    while k < 512
        invariant
            k <= 512,
            forall|m: int| 0 <= m < k ==> #[trigger] permutation@[m] < 256,
        decreases 512 - k,
    {
        if permutation[k] >= 256 {
            return false;
        }
        k += 1;
    }
    true
}

} // verus!
