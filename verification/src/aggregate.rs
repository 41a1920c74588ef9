//! Grouped averaging of result rows.
//!
//! A result row is an ordered sequence of string-encoded values: positions 0
//! and 1 are descriptive labels (row label, column label) and are never part
//! of any arithmetic; positions from 2 on come in blocks of
//! `number_of_runs_per_graph` values, one block per configuration exercised.
//!
//! Header mode keeps one label per block (the last of the block). Data mode
//! partitions the trailing positions into blocks; the caller turns each
//! block into its arithmetic mean and assembles the averaged row from the
//! two labels and the means. Raw output rows are the input rows themselves,
//! never transformed.

use vstd::arithmetic::div_mod::lemma_fundamental_div_mod_converse;
use vstd::prelude::*;

verus! {

/// Why a data row cannot be partitioned into blocks.
#[derive(Debug, Copy, Clone, PartialEq, Eq, Structural)]
pub enum AggregateError {
    /// The row is too short to hold the two leading descriptive labels.
    MissingLabelPrefix,
    /// The trailing positions are not an exact multiple of the block size.
    PartialTrailingBlock,
}

/// The character sequences of a sequence of strings.
pub open spec fn views_of(rows: Seq<String>) -> Seq<Seq<char>> {
    rows.map_values(|s: String| s@)
}

/// The character sequences of a sequence of blocks of strings.
pub open spec fn block_views(blocks: Seq<Vec<String>>) -> Seq<Seq<Seq<char>>> {
    blocks.map_values(|b: Vec<String>| views_of(b@))
}

/// The averaged header row: the two leading labels, then the label of the
/// last trial of each complete block of `k` trailing positions. A row too
/// short to hold both labels is kept as it is.
pub open spec fn spec_header_average(row: Seq<Seq<char>>, k: int) -> Seq<Seq<char>>
    recommends
        1 <= k,
{
    if row.len() < 2 {
        row
    } else {
        row.take(2) + Seq::new(
            (((row.len() - 2) / k) as nat),
            |j: int| row[2 + j * k + (k - 1)],
        )
    }
}

/// The partition of the trailing positions of a data row into blocks of `k`
/// consecutive values.
pub open spec fn spec_data_blocks(row: Seq<Seq<char>>, k: int) -> Seq<Seq<Seq<char>>>
    recommends
        1 <= k,
        2 <= row.len(),
{
    Seq::new(
        (((row.len() - 2) / k) as nat),
        |j: int| row.subrange(2 + j * k, 2 + j * k + k),
    )
}

/// The averaged data row: the two leading labels of the input row, then one
/// mean per block.
pub open spec fn spec_averaged_row(row: Seq<Seq<char>>, means: Seq<Seq<char>>) -> Seq<Seq<char>>
    recommends
        2 <= row.len(),
{
    row.take(2) + means
}

/// Reduces a header row to the averaged header row: positions 0 and 1 are
/// copied unchanged, and of every complete block of `k` trailing labels only
/// the last one is kept. A trailing remainder shorter than a block is
/// dropped.
pub fn average_header_row(row: &Vec<String>, k: usize) -> (r: Vec<String>)
    requires
        1 <= k,
    ensures
        views_of(r@) == spec_header_average(views_of(row@), k as int),
{
    let ghost kk: int = k as int;
    let n = row.len();
    let mut r: Vec<String> = Vec::new();
    if n < 2 {
        let mut i: usize = 0;
        while i < n
            invariant
                0 <= i <= n,
                n == row@.len(),
                r@.len() == i,
                forall|j: int| 0 <= j < i ==> #[trigger] r@[j]@ == row@[j]@,
            decreases n - i,
        {
            r.push(row[i].clone());
            i += 1;
        }
        proof {
            assert(views_of(r@) =~= spec_header_average(views_of(row@), kk));
        }
        return r;
    }
    r.push(row[0].clone());
    r.push(row[1].clone());
    let mut offset_counter: usize = 1;
    let ghost mut base: int = 0;
    let mut i: usize = 2;
    proof {
        assert(base == (r@.len() - 2) * kk) by (nonlinear_arith)
            requires
                base == 0,
                r@.len() == 2,
        ;
    }
    while i < n
        invariant
            2 <= i <= n,
            n == row@.len(),
            1 <= k,
            kk == k as int,
            1 <= offset_counter <= k,
            2 <= r@.len(),
            base == (r@.len() - 2) * kk,
            i - 2 == base + (offset_counter - 1),
            r@[0]@ == row@[0]@,
            r@[1]@ == row@[1]@,
            forall|j: int|
                2 <= j < r@.len() ==> #[trigger] r@[j]@ == row@[2 + (j - 2) * kk + (kk - 1)]@,
        decreases n - i,
    {
        if offset_counter == k {
            proof {
                let p = r@.len() - 2;
                assert((p + 1) * kk == p * kk + kk) by (nonlinear_arith);
                assert(2 + p * kk + (kk - 1) == i as int);
            }
            r.push(row[i].clone());
            proof {
                base = base + kk;
            }
            offset_counter = 1;
        } else {
            offset_counter += 1;
        }
        i += 1;
    }
    proof {
        let p = r@.len() - 2;
        lemma_fundamental_div_mod_converse(n - 2, kk, p, offset_counter - 1);
        let rv = views_of(r@);
        let hv = spec_header_average(views_of(row@), kk);
        assert(rv.len() == hv.len());
        assert forall|idx: int| 0 <= idx < rv.len() implies rv[idx] == hv[idx] by {
            if idx >= 2 {
                let j = idx - 2;
                assert(j * kk + kk <= p * kk) by (nonlinear_arith)
                    requires
                        j + 1 <= p,
                        1 <= kk,
                ;
                assert(2 + j * kk + (kk - 1) < n);
                assert(r@[idx]@ == row@[2 + (idx - 2) * kk + (kk - 1)]@);
            }
        }
        assert(rv =~= hv);
    }
    r
}

/// Partitions the trailing positions of a data row into blocks of `k`
/// consecutive values, in order. Fails if the row cannot hold the two
/// leading labels, and, as a configuration mismatch, if the trailing
/// positions are not an exact multiple of `k`; no partial block is ever
/// produced.
pub fn data_blocks(row: &Vec<String>, k: usize) -> (r: Result<Vec<Vec<String>>, AggregateError>)
    requires
        1 <= k,
    ensures
        match r {
            Ok(blocks) => {
                &&& 2 <= row@.len()
                &&& (row@.len() - 2) % (k as int) == 0
                &&& block_views(blocks@) == spec_data_blocks(views_of(row@), k as int)
            },
            Err(e) => {
                &&& (row@.len() < 2 || (row@.len() - 2) % (k as int) != 0)
                &&& (e == AggregateError::MissingLabelPrefix <==> row@.len() < 2)
            },
        },
{
    let ghost kk: int = k as int;
    let n = row.len();
    if n < 2 {
        return Err(AggregateError::MissingLabelPrefix);
    }
    let mut blocks: Vec<Vec<String>> = Vec::new();
    let mut block: Vec<String> = Vec::new();
    let ghost mut base: int = 0;
    let mut i: usize = 2;
    proof {
        assert(base == blocks@.len() * kk) by (nonlinear_arith)
            requires
                base == 0,
                blocks@.len() == 0,
        ;
    }
    while i < n
        invariant
            2 <= i <= n,
            n == row@.len(),
            1 <= k,
            kk == k as int,
            base == blocks@.len() * kk,
            i - 2 == base + block@.len(),
            block@.len() < k,
            forall|l: int| 0 <= l < block@.len() ==> #[trigger] block@[l]@ == row@[2 + base + l]@,
            forall|j: int| 0 <= j < blocks@.len() ==> (#[trigger] blocks@[j]@).len() == kk,
            forall|j: int, l: int|
                0 <= j < blocks@.len() && 0 <= l < kk ==> #[trigger] blocks@[j]@[l]@ == row@[2 + j
                    * kk + l]@,
        decreases n - i,
    {
        block.push(row[i].clone());
        if block.len() == k {
            proof {
                let p = blocks@.len() as int;
                assert((p + 1) * kk == p * kk + kk) by (nonlinear_arith);
            }
            blocks.push(block);
            block = Vec::new();
            proof {
                base = base + kk;
            }
        }
        i += 1;
    }
    if block.len() > 0 {
        proof {
            lemma_fundamental_div_mod_converse(
                n - 2,
                kk,
                blocks@.len() as int,
                block@.len() as int,
            );
        }
        return Err(AggregateError::PartialTrailingBlock);
    }
    proof {
        lemma_fundamental_div_mod_converse(n - 2, kk, blocks@.len() as int, 0);
        let bv = block_views(blocks@);
        let dv = spec_data_blocks(views_of(row@), kk);
        assert(bv.len() == dv.len());
        assert forall|j: int| 0 <= j < bv.len() implies bv[j] == dv[j] by {
            assert(j * kk + kk <= blocks@.len() * kk) by (nonlinear_arith)
                requires
                    j + 1 <= blocks@.len(),
                    1 <= kk,
            ;
            assert forall|l: int|
                0 <= l < kk implies views_of(blocks@[j]@)[l] == views_of(row@).subrange(
                2 + j * kk,
                2 + j * kk + kk,
            )[l] by {
                assert(2 + j * kk + l < n);
                assert(blocks@[j]@[l]@ == row@[2 + j * kk + l]@);
            }
            assert(views_of(blocks@[j]@) =~= views_of(row@).subrange(2 + j * kk, 2 + j * kk + kk));
        }
        assert(bv =~= dv);
    }
    Ok(blocks)
}

/// Assembles an averaged data row: the two leading labels of the input row,
/// copied verbatim, followed by the given means, one per block.
pub fn assemble_averaged_row(row: &Vec<String>, means: &Vec<String>) -> (r: Vec<String>)
    requires
        2 <= row@.len(),
    ensures
        views_of(r@) == spec_averaged_row(views_of(row@), views_of(means@)),
{
    let mut r: Vec<String> = Vec::new();
    r.push(row[0].clone());
    r.push(row[1].clone());
    let mut i: usize = 0;
    while i < means.len()
        invariant
            0 <= i <= means@.len(),
            r@.len() == 2 + i,
            r@[0]@ == row@[0]@,
            r@[1]@ == row@[1]@,
            2 <= row@.len(),
            forall|j: int| 2 <= j < r@.len() ==> #[trigger] r@[j]@ == means@[j - 2]@,
        decreases means@.len() - i,
    {
        r.push(means[i].clone());
        i += 1;
    }
    proof {
        let rv = views_of(r@);
        let av = spec_averaged_row(views_of(row@), views_of(means@));
        assert(rv.len() == av.len());
        assert forall|idx: int| 0 <= idx < rv.len() implies rv[idx] == av[idx] by {
            if idx >= 2 {
                assert(r@[idx]@ == means@[idx - 2]@);
            }
        }
        assert(rv =~= av);
    }
    r
}

/// Shape of the averaged output: for a row whose trailing length is an
/// exact multiple of the block size `k`, the averaged header row, the block
/// partition, and the assembled averaged data row all have one entry per
/// block, so both averaged rows have length `2 + (row.len() - 2) / k`.
pub proof fn lemma_averaged_shape(row: Seq<Seq<char>>, k: int, means: Seq<Seq<char>>)
    requires
        1 <= k,
        2 <= row.len(),
        (row.len() - 2) % k == 0,
        means.len() == spec_data_blocks(row, k).len(),
    ensures
        spec_data_blocks(row, k).len() == (row.len() - 2) / k,
        spec_header_average(row, k).len() == 2 + (row.len() - 2) / k,
        spec_averaged_row(row, means).len() == 2 + (row.len() - 2) / k,
{
}

} // verus!
