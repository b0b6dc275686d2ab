//! Conversions between text and sequences, the reverse complement, and the
//! layout of a long sequence into display rows.

use std::ops::Range;

use vstd::prelude::*;

use crate::sequence::{
    Nucleotide, nt_complement, parse_chars, reverse_complement, seq_text,
};

verus! {

/// The text of a sequence: one upper-case letter per nucleotide.
pub fn make_seq_str(seq: &[Nucleotide]) -> (r: String)
    ensures
        r@ == seq_text(seq@),
{
    let mut result = String::new();
    let mut i: usize = 0;
    while i < seq.len()
        invariant
            i <= seq.len(),
            result@ == seq_text(seq@.subrange(0, i as int)),
        decreases seq.len() - i,
    {
        result.append(seq[i].as_str());
        assert(seq_text(seq@.subrange(0, i + 1)) =~= seq_text(seq@.subrange(0, i as int)) + seq![
            crate::sequence::nt_char(seq@[i as int]),
        ]);
        i += 1;
    }
    assert(seq@.subrange(0, i as int) =~= seq@);
    result
}

/// Reads a sequence from text: 'a', 't', 'c' and 'g', in either case, become
/// nucleotides; every other character is skipped.
pub fn seq_from_str(str: &str) -> (r: Vec<Nucleotide>)
    ensures
        r@ == parse_chars(str@),
{
    let mut result: Vec<Nucleotide> = Vec::new();
    let n: usize = str.unicode_len();
    let mut i: usize = 0;
    while i < n
        invariant
            n == str@.len(),
            i <= n,
            result@ == parse_chars(str@.subrange(0, i as int)),
        decreases n - i,
    {
        let c = str.get_char(i);
        assert(str@.subrange(0, i + 1).drop_last() =~= str@.subrange(0, i as int));
        match Nucleotide::from_char(c) {
            Some(nt) => result.push(nt),
            None => {},
        }
        i += 1;
    }
    assert(str@.subrange(0, n as int) =~= str@);
    result
}

/// The reverse complement: the order is reversed, and A is swapped with T, C with G.
pub fn seq_complement(seq: &[Nucleotide]) -> (r: Vec<Nucleotide>)
    ensures
        r@ == reverse_complement(seq@),
{
    let n = seq.len();
    let mut result: Vec<Nucleotide> = Vec::with_capacity(n);
    let mut i: usize = 0;
    while i < n
        invariant
            n == seq.len(),
            i <= n,
            result@.len() == i,
            forall|k: int| 0 <= k < i ==> result@[k] == nt_complement(seq@[n - 1 - k]),
        decreases n - i,
    {
        result.push(seq[n - 1 - i].complement());
        i += 1;
    }
    assert(result@ =~= reverse_complement(seq@));
    result
}

/// The display rows for a sequence of `len` characters, `chars_per_row` to a row:
/// row `i` spans `i * chars_per_row .. (i + 1) * chars_per_row`, and there are
/// `len / chars_per_row + 1` rows.
pub fn get_row_ranges(len: usize, chars_per_row: usize) -> (r: Vec<Range<usize>>)
    requires
        chars_per_row > 0,
        len + chars_per_row <= usize::MAX,
    ensures
        r@.len() == len / chars_per_row + 1,
        forall|i: int|
            0 <= i < r@.len() ==> #[trigger] r@[i].start == i * chars_per_row && r@[i].end == (i
                + 1) * chars_per_row,
{
    let mut result: Vec<Range<usize>> = Vec::new();
    let num_rows = len / chars_per_row + 1;
    proof {
        assert(num_rows * chars_per_row <= len + chars_per_row) by (nonlinear_arith)
            requires
                num_rows == len / chars_per_row + 1,
                chars_per_row > 0,
        {
            vstd::arithmetic::div_mod::lemma_fundamental_div_mod(len as int, chars_per_row as int);
            vstd::arithmetic::div_mod::lemma_mod_bound(len as int, chars_per_row as int);
        }
    }
    let mut row_i: usize = 0;
    while row_i < num_rows
        invariant
            chars_per_row > 0,
            num_rows == len / chars_per_row + 1,
            num_rows * chars_per_row <= usize::MAX,
            row_i <= num_rows,
            result@.len() == row_i,
            forall|i: int|
                0 <= i < row_i ==> #[trigger] result@[i].start == i * chars_per_row
                    && result@[i].end == (i + 1) * chars_per_row,
        decreases num_rows - row_i,
    {
        proof {
            assert((row_i + 1) * chars_per_row <= num_rows * chars_per_row) by (nonlinear_arith)
                requires
                    row_i < num_rows,
                    chars_per_row > 0,
            ;
            assert((row_i + 1) * chars_per_row == row_i * chars_per_row + chars_per_row)
                by (nonlinear_arith);
        }
        let start = row_i * chars_per_row;
        result.push(start..start + chars_per_row);
        row_i += 1;
    }
    result
}

/// Whether a range holds an index.
pub open spec fn range_holds(r: Range<usize>, i: usize) -> bool {
    r.start <= i < r.end
}

/// The first row, at or after row `k`, whose range holds index `i`.
pub open spec fn first_row_from(rows: Seq<Range<usize>>, i: usize, k: int) -> Option<int>
    decreases rows.len() - k,
{
    if k < 0 || k >= rows.len() {
        None
    } else if range_holds(rows[k], i) {
        Some(k)
    } else {
        first_row_from(rows, i, k + 1)
    }
}

/// Maps a sequence index, on a display wrapped into rows, to its column and row.
/// The row is the first one whose range holds the index; where no row holds it,
/// the index is placed on row 0 as its own column.
pub fn seq_i_to_col_row(seq_i: usize, row_ranges: &[Range<usize>]) -> (r: (usize, usize))
    ensures
        match first_row_from(row_ranges@, seq_i, 0) {
            Some(k) => r == (
                (seq_i - row_ranges@[k].start) as usize,
                k as usize,
            ),
            None => r == (seq_i, 0usize),
        },
{
    let mut k: usize = 0;
    while k < row_ranges.len()
        invariant
            k <= row_ranges.len(),
            first_row_from(row_ranges@, seq_i, 0) == first_row_from(row_ranges@, seq_i, k as int),
        decreases row_ranges.len() - k,
    {
        let range = &row_ranges[k];
        if range.start <= seq_i && seq_i < range.end {
            return (seq_i - range.start, k);
        }
        k += 1;
    }
    (seq_i, 0)
}

} // verus!
