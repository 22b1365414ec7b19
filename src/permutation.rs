use rand::seq::SliceRandom;
use rand::SeedableRng;
use vstd::prelude::*;

verus! {

/// The classic reference permutation of the byte values 0 to 255.
pub const REFERENCE: [u16; 256] = [
    151, 160, 137, 91, 90, 15, 131, 13, 201, 95, 96, 53, 194, 233, 7, 225,
    140, 36, 103, 30, 69, 142, 8, 99, 37, 240, 21, 10, 23, 190, 6, 148,
    247, 120, 234, 75, 0, 26, 197, 62, 94, 252, 219, 203, 117, 35, 11, 32,
    57, 177, 33, 88, 237, 149, 56, 87, 174, 20, 125, 136, 171, 168, 68, 175,
    74, 165, 71, 134, 139, 48, 27, 166, 77, 146, 158, 231, 83, 111, 229, 122,
    60, 211, 133, 230, 220, 105, 92, 41, 55, 46, 245, 40, 244, 102, 143, 54,
    65, 25, 63, 161, 1, 216, 80, 73, 209, 76, 132, 187, 208, 89, 18, 169,
    200, 196, 135, 130, 116, 188, 159, 86, 164, 100, 109, 198, 173, 186, 3, 64,
    52, 217, 226, 250, 124, 123, 5, 202, 38, 147, 118, 126, 255, 82, 85, 212,
    207, 206, 59, 227, 47, 16, 58, 17, 182, 189, 28, 42, 223, 183, 170, 213,
    119, 248, 152, 2, 44, 154, 163, 70, 221, 153, 101, 155, 167, 43, 172, 9,
    129, 22, 39, 253, 19, 98, 108, 110, 79, 113, 224, 232, 178, 185, 112, 104,
    218, 246, 97, 228, 251, 34, 242, 193, 238, 210, 144, 12, 191, 179, 162, 241,
    81, 51, 145, 235, 249, 14, 239, 107, 49, 192, 214, 31, 181, 199, 106, 157,
    184, 84, 204, 176, 115, 121, 50, 45, 127, 4, 150, 254, 138, 236, 205, 93,
    222, 114, 67, 29, 24, 72, 243, 141, 128, 195, 78, 66, 215, 61, 156, 180,
];

/// The default table: the reference permutation followed by itself.
pub open spec fn default_table() -> Seq<u16> {
    REFERENCE@ + REFERENCE@
}

/// A table that the kernel can hash through: 512 entries, each a byte value,
/// so that an entry plus a cell coordinate reduced modulo 256 (plus one) still
/// indexes the table.
pub open spec fn valid_table(t: Seq<u16>) -> bool {
    &&& t.len() == 512
    &&& forall|k: int| 0 <= k < t.len() ==> #[trigger] t[k] < 256
}

/// The order in which a Pcg64 generator seeded from `seed` leaves `s` after a
/// Fisher-Yates shuffle.
pub uninterp spec fn pcg_shuffle(seed: u64, s: Seq<u16>) -> Seq<u16>;

/// The table that `set_seed` builds: the default for seed 0, otherwise the
/// default shuffled by the generator that the seed fixes.
pub open spec fn table_for_seed(seed: u64) -> Seq<u16> {
    if seed == 0 {
        default_table()
    } else {
        pcg_shuffle(seed, default_table())
    }
}

/// Relies on rand_pcg's `Pcg64::seed_from_u64`, whose generator is fixed by the
/// seed alone, and on rand's `SliceRandom::shuffle`, which only swaps entries.
#[verifier::external_body]
fn shuffle_with_seed(table: [u16; 512], seed: u64) -> (r: [u16; 512])
    ensures
        r@ == pcg_shuffle(seed, table@),
        r@.to_multiset() == table@.to_multiset(),
{
    let mut table = table;
    let mut rng = rand_pcg::Pcg64::seed_from_u64(seed);
    table.shuffle(&mut rng);
    table
}

/// Every entry of the default table is a byte value.
pub proof fn lemma_default_table_valid()
    ensures
        valid_table(default_table()),
{
    assert forall|k: int| 0 <= k < default_table().len() implies #[trigger] default_table()[k]
        < 256 by {
        if k < 256 {
            assert(default_table()[k] == REFERENCE@[k]);
        } else {
            assert(default_table()[k] == REFERENCE@[k - 256]);
        }
    }
}

/// Reordering a valid table keeps it valid.
pub proof fn lemma_reordered_table_valid(s: Seq<u16>, t: Seq<u16>)
    requires
        valid_table(t),
        s.to_multiset() == t.to_multiset(),
    ensures
        valid_table(s),
{
    vstd::seq_lib::to_multiset_len(s);
    vstd::seq_lib::to_multiset_len(t);
    assert forall|k: int| 0 <= k < s.len() implies #[trigger] s[k] < 256 by {
        assert(s.contains(s[k]));
        vstd::seq_lib::to_multiset_contains(s, s[k]);
        vstd::seq_lib::to_multiset_contains(t, s[k]);
    }
}

/// Builds the default table.
pub fn default_permutation() -> (r: [u16; 512])
    ensures
        r@ == default_table(),
{
    let mut t: [u16; 512] = [0; 512];
    let mut k: usize = 0;
    while k < 256
        invariant
            k <= 256,
            forall|m: int| 0 <= m < k ==> #[trigger] t@[m] == REFERENCE@[m],
            forall|m: int| 256 <= m < 256 + k ==> #[trigger] t@[m] == REFERENCE@[m - 256],
        decreases 256 - k,
    {
        t[k] = REFERENCE[k];
        t[k + 256] = REFERENCE[k];
        k += 1;
    }
    assert(t@ =~= default_table());
    t
}

/// Builds the permutation table for `seed`: the default table for seed 0,
/// otherwise the default table shuffled by a generator seeded from `seed`.
pub fn set_seed(seed: u64) -> (r: [u16; 512])
    ensures
        r@ == table_for_seed(seed),
        seed == 0 ==> r@ == default_table(),
        r@.to_multiset() == default_table().to_multiset(),
        valid_table(r@),
{
    proof {
        lemma_default_table_valid();
    }
    let permutation = default_permutation();
    if seed == 0 {
        permutation
    } else {
        let shuffled = shuffle_with_seed(permutation, seed);
        proof {
            lemma_reordered_table_valid(shuffled@, permutation@);
        }
        shuffled
    }
}

/// Two tables built from one seed are the same table.
pub proof fn lemma_set_seed_deterministic(seed: u64, first: Seq<u16>, second: Seq<u16>)
    requires
        first == table_for_seed(seed),
        second == table_for_seed(seed),
    ensures
        first == second,
{
}

} // verus!
