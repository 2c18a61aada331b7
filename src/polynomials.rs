//! Error correction of each block and interleaving of the blocks into the
//! order in which codewords are placed in the symbol.

use vstd::prelude::*;
use crate::gf256::{division, remainder};
use crate::vecl::{ECL, ect_table, groups_table, unpacked};

verus! {

/// Codewords in all blocks of a layout `[(g1_count, g1_size), (g2_count, g2_size)]`.
pub open spec fn block_total(groups: [(usize, usize); 2]) -> int {
    groups[0].0 * groups[0].1 + groups[1].0 * groups[1].1
}

/// Number of blocks of a layout.
pub open spec fn block_count(groups: [(usize, usize); 2]) -> int {
    groups[0].0 + groups[1].0
}

/// Block `b` of `data`: the blocks of group 1, then those of group 2, each
/// taking its codewords in turn from `data`.
pub open spec fn block(data: Seq<u8>, groups: [(usize, usize); 2], b: int) -> Seq<u8> {
    let (c1, s1) = (groups[0].0 as int, groups[0].1 as int);
    let s2 = groups[1].1 as int;
    if b < c1 {
        data.subrange(b * s1, b * s1 + s1)
    } else {
        data.subrange(c1 * s1 + (b - c1) * s2, c1 * s1 + (b - c1) * s2 + s2)
    }
}

/// Codeword `i` of each of `count` blocks of `size` codewords that start at `base`.
pub open spec fn strided(data: Seq<u8>, base: int, count: int, size: int, i: int) -> Seq<u8> {
    Seq::new(count as nat, |j: int| data[base + j * size + i])
}

/// Codeword `i` of every block that has one, in block order.
pub open spec fn column(data: Seq<u8>, groups: [(usize, usize); 2], i: int) -> Seq<u8> {
    let (c1, s1) = (groups[0].0 as int, groups[0].1 as int);
    let (c2, s2) = (groups[1].0 as int, groups[1].1 as int);
    (if i < s1 {
        strided(data, 0, c1, s1, i)
    } else {
        Seq::empty()
    }) + (if i < s2 {
        strided(data, c1 * s1, c2, s2, i)
    } else {
        Seq::empty()
    })
}

/// Columns `0` to `n - 1`, one after the other.
pub open spec fn columns(data: Seq<u8>, groups: [(usize, usize); 2], n: nat) -> Seq<u8>
    decreases n,
{
    if n == 0 {
        Seq::empty()
    } else {
        columns(data, groups, (n - 1) as nat) + column(data, groups, n - 1)
    }
}

/// The data codewords in transmission order: column by column over the blocks.
pub open spec fn data_sequence(data: Seq<u8>, groups: [(usize, usize); 2]) -> Seq<u8> {
    let (s1, s2) = (groups[0].1 as nat, groups[1].1 as nat);
    columns(data, groups, if s1 >= s2 { s1 } else { s2 })
}

/// The error correction codewords in transmission order: position `k` holds
/// codeword `k / n` of block `k % n`'s remainder, `n` being the number of blocks.
pub open spec fn error_sequence(data: Seq<u8>, by: Seq<u8>, groups: [(usize, usize); 2]) -> Seq<u8> {
    let n = block_count(groups);
    Seq::new(
        ((by.len() - 1) * n) as nat,
        |k: int| remainder(block(data, groups, k % n), by)[k / n],
    )
}

/// The final codeword sequence: interleaved data, then interleaved error correction.
pub open spec fn interleaved(data: Seq<u8>, by: Seq<u8>, groups: [(usize, usize); 2]) -> Seq<u8> {
    data_sequence(data, groups) + error_sequence(data, by, groups)
}

/// Number of codewords in the first `n` columns.
proof fn lemma_columns_len(data: Seq<u8>, groups: [(usize, usize); 2], n: nat)
    ensures
        columns(data, groups, n).len() == groups[0].0 * (if n <= groups[0].1 { n as int } else {
            groups[0].1 as int
        }) + groups[1].0 * (if n <= groups[1].1 { n as int } else { groups[1].1 as int }),
    decreases n,
{
    if n == 0 {
        assert(groups[0].0 * 0int == 0 && groups[1].0 * 0int == 0) by (nonlinear_arith);
    } else {
        lemma_columns_len(data, groups, (n - 1) as nat);
        let (c1, s1) = (groups[0].0 as int, groups[0].1 as int);
        let (c2, s2) = (groups[1].0 as int, groups[1].1 as int);
        let m = n - 1;
        assert(columns(data, groups, n).len() == columns(data, groups, m as nat).len() + column(
            data,
            groups,
            m,
        ).len());
        assert(column(data, groups, m).len() == (if m < s1 { c1 } else { 0 }) + (if m < s2 {
            c2
        } else {
            0
        }));
        assert(c1 * (if n <= s1 { n as int } else { s1 }) == c1 * (if m <= s1 { m } else { s1 }) + (if m
            < s1 { c1 } else { 0 })) by (nonlinear_arith)
            requires
                m == n - 1,
                s1 >= 0,
        ;
        assert(c2 * (if n <= s2 { n as int } else { s2 }) == c2 * (if m <= s2 { m } else { s2 }) + (if m
            < s2 { c2 } else { 0 })) by (nonlinear_arith)
            requires
                m == n - 1,
                s2 >= 0,
        ;
    }
}

/// The interleaved sequence holds every data codeword once, then the error
/// correction codewords of every block: its length is the number of data
/// codewords plus the error correction codewords per block times the number
/// of blocks.
pub proof fn lemma_interleaved_len(data: Seq<u8>, by: Seq<u8>, groups: [(usize, usize); 2])
    requires
        by.len() >= 1,
    ensures
        interleaved(data, by, groups).len() == block_total(groups) + (by.len() - 1) * block_count(
            groups,
        ),
{
    let (s1, s2) = (groups[0].1 as nat, groups[1].1 as nat);
    lemma_columns_len(data, groups, if s1 >= s2 { s1 } else { s2 });
    assert((by.len() - 1) * block_count(groups) >= 0) by (nonlinear_arith)
        requires
            by.len() >= 1,
            block_count(groups) >= 0,
    ;
}

/// Position `k` of a buffer of `rows` rows of `n` lies in row `k / n`, column `k % n`.
proof fn lemma_stride(k: int, n: int, rows: int)
    requires
        0 < n,
        0 <= k < rows * n,
    ensures
        0 <= k / n < rows,
        0 <= k % n < n,
{
    vstd::arithmetic::div_mod::lemma_fundamental_div_mod(k, n);
    vstd::arithmetic::div_mod::lemma_mod_bound(k, n);
    assert(0 <= k / n < rows) by (nonlinear_arith)
        requires
            k == n * (k / n) + k % n,
            0 <= k % n < n,
            0 <= k < rows * n,
    ;
}

/// Computes the remainder of `block` and writes it into `ie` at column `b` of
/// rows of `n`.
fn encode_block(block: &[u8], error: &[u8], b: usize, n: usize, ie: &mut Vec<u8>)
    requires
        error@.len() >= 1,
        block@.len() + error@.len() <= usize::MAX,
        b < n,
        old(ie)@.len() == (error@.len() - 1) * n,
    ensures
        final(ie)@.len() == old(ie)@.len(),
        forall|k: int|
            0 <= k < old(ie)@.len() ==> #[trigger] final(ie)@[k] == if k % (n as int) == b {
                remainder(block@, error@)[k / (n as int)]
            } else {
                old(ie)@[k]
            },
{
    let rem = division(block, error);
    let ghost before = ie@;
    let ghost rows = error@.len() - 1;
    let len = ie.len();
    let mut j: usize = 0;
    while j < rem.len()
        invariant
            b < n,
            rem@ == remainder(block@, error@),
            rem@.len() == rows,
            before.len() == rows * n,
            before.len() == len,
            j <= rows,
            ie@.len() == before.len(),
            forall|k: int|
                0 <= k < before.len() ==> #[trigger] ie@[k] == if k % (n as int) == b && k / (n as int) < j {
                    rem@[k / (n as int)]
                } else {
                    before[k]
                },
        decreases rows - j,
    {
        assert(j * n + b < rows * n) by (nonlinear_arith)
            requires
                j < rows,
                b < n,
        ;
        let idx = j * n + b;
        proof {
            vstd::arithmetic::div_mod::lemma_fundamental_div_mod_converse(idx as int, n as int, j as int, b as int);
            assert forall|k: int|
                0 <= k < before.len() && #[trigger] (k % (n as int)) == b && k / (n as int)
                    == j implies k == idx by {
                vstd::arithmetic::div_mod::lemma_fundamental_div_mod(k, n as int);
                vstd::arithmetic::mul::lemma_mul_is_commutative(n as int, j as int);
            }
        }
        ie.set(idx, rem[j]);
        j = j + 1;
    }
    proof {
        assert forall|k: int| 0 <= k < before.len() implies #[trigger] (k / (n as int)) < rows by {
            lemma_stride(k, n as int, rows);
        }
    }
}

/// Computes the remainders of `count` blocks of `size` codewords that follow
/// each other in `data` from `base` on, and writes them into `ie` as blocks
/// `first` to `first + count - 1` of `n`.
fn encode_group(
    data: &Vec<u8>,
    error: &[u8],
    base: usize,
    count: usize,
    size: usize,
    first: usize,
    n: usize,
    ie: &mut Vec<u8>,
)
    requires
        1 <= error@.len() <= 31,
        size < 256,
        base + count * size <= data@.len(),
        first + count <= n,
        old(ie)@.len() == (error@.len() - 1) * n,
    ensures
        final(ie)@.len() == old(ie)@.len(),
        forall|k: int|
            0 <= k < old(ie)@.len() ==> #[trigger] final(ie)@[k] == if first <= k % (n as int) < first
                + count {
                remainder(
                    data@.subrange(
                        base + (k % (n as int) - first) * size,
                        base + (k % (n as int) - first) * size + size,
                    ),
                    error@,
                )[k / (n as int)]
            } else {
                old(ie)@[k]
            },
{
    let ghost before = ie@;
    let len = data.len();
    let mut i: usize = 0;
    while i < count
        invariant
            len == data@.len(),
            i <= count,
            1 <= error@.len() <= 31,
            size < 256,
            base + count * size <= data@.len(),
            first + count <= n,
            before.len() == (error@.len() - 1) * n,
            ie@.len() == before.len(),
            forall|k: int|
                0 <= k < before.len() ==> #[trigger] ie@[k] == if first <= k % (n as int) < first + i {
                    remainder(
                        data@.subrange(
                            base + (k % (n as int) - first) * size,
                            base + (k % (n as int) - first) * size + size,
                        ),
                        error@,
                    )[k / (n as int)]
                } else {
                    before[k]
                },
        decreases count - i,
    {
        assert(base + i * size + size <= base + count * size) by (nonlinear_arith)
            requires
                i < count,
        ;
        let start = base + i * size;
        let block_data = slice_of(data, start, size);
        encode_block(block_data, error, first + i, n, ie);
        i = i + 1;
    }
}

/// Appends codeword `i` of each of `count` blocks of `size` codewords starting at `base`.
fn push_strided(data: &Vec<u8>, base: usize, count: usize, size: usize, i: usize, out: &mut Vec<u8>)
    requires
        i < size,
        base + count * size <= data@.len(),
    ensures
        final(out)@ == old(out)@ + strided(data@, base as int, count as int, size as int, i as int),
{
    let len = data.len();
    let mut j: usize = 0;
    while j < count
        invariant
            len == data@.len(),
            j <= count,
            i < size,
            base + count * size <= data@.len(),
            out@ == old(out)@ + strided(data@, base as int, j as int, size as int, i as int),
        decreases count - j,
    {
        assert(base + j * size + i < base + count * size) by (nonlinear_arith)
            requires
                j < count,
                i < size,
        ;
        out.push(data[base + j * size + i]);
        j = j + 1;
        assert(out@ =~= old(out)@ + strided(data@, base as int, j as int, size as int, i as int));
    }
}

/// Computes the error correction codewords of every block of `data` with the
/// generator polynomial `error`, and interleaves data and error correction
/// codewords in the order in which they are placed in the symbol.
#[verifier::rlimit(40)]
pub fn structure(data: &Vec<u8>, error: &[u8], quality: ECL, version: usize) -> (r: Vec<u8>)
    requires
        1 <= version <= 40,
        data@.len() == block_total(unpacked(groups_table(quality)[version as int])),
        error@.len() == ect_table(quality)[version as int] + 1,
    ensures
        r@ == interleaved(data@, error@, unpacked(groups_table(quality)[version as int])),
        r@.len() == data@.len() + ect_table(quality)[version as int] * block_count(
            unpacked(groups_table(quality)[version as int]),
        ),
{
    let error_codes = crate::vecl::ecc_to_ect(quality, version);
    let groups = crate::vecl::ecc_to_groups(quality, version);
    let (g1_count, g1_size) = groups[0];
    let (g2_count, g2_size) = groups[1];
    assert(g1_count < 256 && g1_size < 256 && g2_count < 256 && g2_size < 256);
    let groups_count_total = g1_count + g2_count;
    let ghost total = block_count(groups);
    assert(error_codes * groups_count_total <= 30 * 510) by (nonlinear_arith)
        requires
            error_codes <= 30,
            groups_count_total <= 510,
    ;
    assert(g1_count * g1_size <= 255 * 255) by (nonlinear_arith)
        requires
            g1_count < 256,
            g1_size < 256,
    ;
    let g1_total = g1_count * g1_size;
    let mut interleaved_error: Vec<u8> = vec![0; error_codes * groups_count_total];

    encode_group(data, error, 0, g1_count, g1_size, 0, groups_count_total, &mut interleaved_error);
    encode_group(data, error, g1_total, g2_count, g2_size, g1_count, groups_count_total, &mut interleaved_error);
    proof {
        assert forall|k: int| 0 <= k < interleaved_error@.len() implies #[trigger] interleaved_error@[k]
            == error_sequence(data@, error@, groups)[k] by {
            lemma_stride(k, total, error_codes as int);
            let b = k % total;
            if b >= g1_count {
                assert(b - g1_count < g2_count);
            }
        }
        assert(interleaved_error@ =~= error_sequence(data@, error@, groups));
    }

    let mut interleaved_data: Vec<u8> = Vec::new();
    let max_size = if g1_size >= g2_size { g1_size } else { g2_size };
    let mut i: usize = 0;
    while i < max_size
        invariant
            i <= max_size,
            max_size == if g1_size >= g2_size { g1_size } else { g2_size },
            groups == unpacked(groups_table(quality)[version as int]),
            (g1_count, g1_size) == groups[0],
            (g2_count, g2_size) == groups[1],
            g1_count < 256 && g1_size < 256 && g2_count < 256 && g2_size < 256,
            g1_total == g1_count * g1_size,
            data@.len() == block_total(groups),
            interleaved_data@ == columns(data@, groups, i as nat),
        decreases max_size - i,
    {
        if i < g1_size {
            push_strided(data, 0, g1_count, g1_size, i, &mut interleaved_data);
        }
        if i < g2_size {
            push_strided(data, g1_total, g2_count, g2_size, i, &mut interleaved_data);
        }
        assert(interleaved_data@ =~= columns(data@, groups, (i + 1) as nat));
        i = i + 1;
    }

    interleaved_data.append(&mut interleaved_error);
    proof {
        lemma_interleaved_len(data@, error@, groups);
    }
    interleaved_data
}

/// The `len` codewords of `data` from `start` on.
fn slice_of(data: &Vec<u8>, start: usize, len: usize) -> (r: &[u8])
    requires
        start + len <= data.len(),
    ensures
        r@ == data@.subrange(start as int, start + len),
{
    let s = data.as_slice();
    &s[start..start + len]
}

} // verus!
