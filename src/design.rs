//! The two primer design strategies: amplification of a target, and SLIC / FastCloning
//! of an insert into a vector.

use vstd::prelude::*;

use crate::metrics::TmParams;
use crate::primer::{Primer, PrimerData, TuneSetting};
use crate::sequence::{Nucleotide, reverse_complement};
use crate::util::seq_complement;

verus! {

/// The length of each untrimmed primer region taken from a template. It is also the
/// shortest target that amplification design accepts.
pub const UNTRIMMED_LEN: usize = 32;

/// The trim a tunable end starts with, taking an untrimmed region down to 20 bases.
pub const DEFAULT_TRIM_AMT: usize = 12;

/// The two primers that amplify a target.
pub struct AmplificationPrimers {
    pub fwd: Primer,
    pub rev: Primer,
}

/// The four primers that join an insert into a vector.
pub struct SlicPrimers {
    pub insert_fwd: Primer,
    pub insert_rev: Primer,
    pub vector_fwd: Primer,
    pub vector_rev: Primer,
}

/// The smaller of two lengths.
pub open spec fn min_len(a: int, b: int) -> int {
    if a < b {
        a
    } else {
        b
    }
}

/// The forward amplification primer: the first bases of the target.
pub open spec fn amp_fwd_of(t: Seq<Nucleotide>) -> Seq<Nucleotide> {
    t.subrange(0, UNTRIMMED_LEN as int)
}

/// The reverse amplification primer: the reverse complement of the last bases of the target.
pub open spec fn amp_rev_of(t: Seq<Nucleotide>) -> Seq<Nucleotide> {
    reverse_complement(t.subrange(t.len() - UNTRIMMED_LEN, t.len() as int))
}

/// The vector bases just before the insertion point (fewer where the vector has fewer).
pub open spec fn vector_before(v: Seq<Nucleotide>, loc: int) -> Seq<Nucleotide> {
    v.subrange(loc - min_len(UNTRIMMED_LEN as int, loc), loc)
}

/// The vector bases from the insertion point on (fewer where the vector has fewer).
pub open spec fn vector_after(v: Seq<Nucleotide>, loc: int) -> Seq<Nucleotide> {
    v.subrange(loc, loc + min_len(UNTRIMMED_LEN as int, v.len() - loc))
}

/// The first bases of the insert (all of them, where it is shorter).
pub open spec fn insert_head(i: Seq<Nucleotide>) -> Seq<Nucleotide> {
    i.subrange(0, min_len(UNTRIMMED_LEN as int, i.len() as int))
}

/// The last bases of the insert (all of them, where it is shorter).
pub open spec fn insert_tail(i: Seq<Nucleotide>) -> Seq<Nucleotide> {
    i.subrange(i.len() - min_len(UNTRIMMED_LEN as int, i.len() as int), i.len() as int)
}

/// Whether SLIC design accepts its inputs: a non-empty insert, and an insertion point
/// strictly inside the vector, so that vector bases stand on both sides of it.
pub open spec fn slic_accepts(v: Seq<Nucleotide>, i: Seq<Nucleotide>, loc: int) -> bool {
    i.len() > 0 && 0 < loc < v.len()
}

/// Designs the primers that amplify `seq`: the forward primer is its first
/// `UNTRIMMED_LEN` bases, the reverse primer the reverse complement of its last ones.
/// `None` where the target is shorter than that.
pub fn design_amplification_primers(seq: &[Nucleotide]) -> (r: Option<AmplificationPrimers>)
    ensures
        r is Some <==> seq@.len() >= UNTRIMMED_LEN,
        r matches Some(p) ==> p.fwd.sequence@ == amp_fwd_of(seq@) && p.rev.sequence@
            == amp_rev_of(seq@),
{
    let n = seq.len();
    if n < UNTRIMMED_LEN {
        return None;
    }
    let fwd = vstd::slice::slice_to_vec(&seq[0..UNTRIMMED_LEN]);
    let rev = seq_complement(&seq[n - UNTRIMMED_LEN..n]);
    Some(AmplificationPrimers { fwd: Primer { sequence: fwd }, rev: Primer { sequence: rev } })
}

fn concat(a: &[Nucleotide], b: &[Nucleotide]) -> (r: Vec<Nucleotide>)
    ensures
        r@ == a@ + b@,
{
    let mut r = vstd::slice::slice_to_vec(a);
    let mut tail = vstd::slice::slice_to_vec(b);
    r.append(&mut tail);
    r
}

/// Designs the primers that join `seq_insert` into `seq_vector` at `insert_loc`, the index
/// of the vector base that the insert goes before. The insert forward primer is the vector
/// bases before the insertion point followed by the insert's head; the insert reverse
/// primer the reverse complement of the insert's tail followed by the vector bases from
/// the insertion point; the vector forward primer the vector bases from the insertion
/// point; the vector reverse primer the reverse complement of the vector bases before it.
/// `None` where the insert is empty or the insertion point is not strictly inside the vector.
pub fn design_slic_fc_primers(
    seq_vector: &[Nucleotide],
    seq_insert: &[Nucleotide],
    insert_loc: usize,
) -> (r: Option<SlicPrimers>)
    ensures
        r is Some <==> slic_accepts(seq_vector@, seq_insert@, insert_loc as int),
        r matches Some(p) ==> {
            &&& p.insert_fwd.sequence@ == vector_before(seq_vector@, insert_loc as int)
                + insert_head(seq_insert@)
            &&& p.insert_rev.sequence@ == reverse_complement(
                insert_tail(seq_insert@) + vector_after(seq_vector@, insert_loc as int),
            )
            &&& p.vector_fwd.sequence@ == vector_after(seq_vector@, insert_loc as int)
            &&& p.vector_rev.sequence@ == reverse_complement(
                vector_before(seq_vector@, insert_loc as int),
            )
        },
{
    let nv = seq_vector.len();
    let ni = seq_insert.len();
    if ni == 0 || insert_loc == 0 || insert_loc >= nv {
        return None;
    }
    let k_before = if insert_loc < UNTRIMMED_LEN {
        insert_loc
    } else {
        UNTRIMMED_LEN
    };
    let k_after = if nv - insert_loc < UNTRIMMED_LEN {
        nv - insert_loc
    } else {
        UNTRIMMED_LEN
    };
    let k_insert = if ni < UNTRIMMED_LEN {
        ni
    } else {
        UNTRIMMED_LEN
    };
    let before = &seq_vector[insert_loc - k_before..insert_loc];
    let after = &seq_vector[insert_loc..insert_loc + k_after];
    let head = &seq_insert[0..k_insert];
    let tail = &seq_insert[ni - k_insert..ni];
    let insert_fwd = concat(before, head);
    let insert_rev_region = concat(tail, after);
    let insert_rev = seq_complement(insert_rev_region.as_slice());
    let vector_fwd = vstd::slice::slice_to_vec(after);
    let vector_rev = seq_complement(before);
    Some(
        SlicPrimers {
            insert_fwd: Primer { sequence: insert_fwd },
            insert_rev: Primer { sequence: insert_rev },
            vector_fwd: Primer { sequence: vector_fwd },
            vector_rev: Primer { sequence: vector_rev },
        },
    )
}


/// Whether `d` is a fresh candidate record for the full sequence `full` with the given end
/// settings: its derived fields current under `params`, and no binding sites yet.
pub open spec fn is_candidate(
    d: PrimerData,
    full: Seq<Nucleotide>,
    t5: TuneSetting,
    t3: TuneSetting,
    params: TmParams,
) -> bool {
    &&& d.full_seq() == full
    &&& d.tunable_5p == t5
    &&& d.tunable_3p == t3
    &&& d.is_synced(params)
    &&& d.matches_amplification_seq@.len() == 0
    &&& d.matches_vector_with_insert@.len() == 0
}

/// The two candidate records that amplify `seq`, with their metrics under `params`:
/// forward, then reverse, each with its 5' end fixed and its 3' end tunable from
/// `DEFAULT_TRIM_AMT`. `None` where the target is shorter than `UNTRIMMED_LEN`.
pub fn amplification_records(seq: &[Nucleotide], params: &TmParams) -> (r: Option<
    Vec<PrimerData>,
>)
    ensures
        r is Some <==> seq@.len() >= UNTRIMMED_LEN,
        r matches Some(v) ==> {
            &&& v@.len() == 2
            &&& is_candidate(
                v@[0],
                amp_fwd_of(seq@),
                TuneSetting::Disabled,
                TuneSetting::Enabled(DEFAULT_TRIM_AMT),
                *params,
            )
            &&& is_candidate(
                v@[1],
                amp_rev_of(seq@),
                TuneSetting::Disabled,
                TuneSetting::Enabled(DEFAULT_TRIM_AMT),
                *params,
            )
        },
{
    match design_amplification_primers(seq) {
        None => None,
        Some(primers) => {
            let fwd = PrimerData::new(
                primers.fwd.sequence.as_slice(),
                "Amplification Fwd",
                TuneSetting::Disabled,
                TuneSetting::Enabled(DEFAULT_TRIM_AMT),
                params,
            );
            let rev = PrimerData::new(
                primers.rev.sequence.as_slice(),
                "Amplification Rev",
                TuneSetting::Disabled,
                TuneSetting::Enabled(DEFAULT_TRIM_AMT),
                params,
            );
            let mut v: Vec<PrimerData> = Vec::new();
            v.push(fwd);
            v.push(rev);
            Some(v)
        },
    }
}

/// The four candidate records that join `seq_insert` into `seq_vector` at `insert_loc`,
/// with their metrics under `params`: insert forward and insert reverse, both ends tunable;
/// vector forward, its 5' end fixed and its 3' end tunable; vector reverse, its 5' end
/// tunable and its 3' end fixed. Each tunable end starts at `DEFAULT_TRIM_AMT`. `None`
/// where `design_slic_fc_primers` gives none.
pub fn slic_records(
    seq_vector: &[Nucleotide],
    seq_insert: &[Nucleotide],
    insert_loc: usize,
    params: &TmParams,
) -> (r: Option<Vec<PrimerData>>)
    ensures
        r is Some <==> slic_accepts(seq_vector@, seq_insert@, insert_loc as int),
        r matches Some(v) ==> {
            let before = vector_before(seq_vector@, insert_loc as int);
            let after = vector_after(seq_vector@, insert_loc as int);
            let on = TuneSetting::Enabled(DEFAULT_TRIM_AMT);
            &&& v@.len() == 4
            &&& is_candidate(v@[0], before + insert_head(seq_insert@), on, on, *params)
            &&& is_candidate(
                v@[1],
                reverse_complement(insert_tail(seq_insert@) + after),
                on,
                on,
                *params,
            )
            &&& is_candidate(v@[2], after, TuneSetting::Disabled, on, *params)
            &&& is_candidate(v@[3], reverse_complement(before), on, TuneSetting::Disabled, *params)
        },
{
    match design_slic_fc_primers(seq_vector, seq_insert, insert_loc) {
        None => None,
        Some(primers) => {
            let on = TuneSetting::Enabled(DEFAULT_TRIM_AMT);
            let insert_fwd = PrimerData::new(
                primers.insert_fwd.sequence.as_slice(),
                "SLIC Insert Fwd",
                on,
                on,
                params,
            );
            let insert_rev = PrimerData::new(
                primers.insert_rev.sequence.as_slice(),
                "SLIC Insert Rev",
                on,
                on,
                params,
            );
            let vector_fwd = PrimerData::new(
                primers.vector_fwd.sequence.as_slice(),
                "SLIC Vector Fwd",
                TuneSetting::Disabled,
                on,
                params,
            );
            let vector_rev = PrimerData::new(
                primers.vector_rev.sequence.as_slice(),
                "SLIC Vector Rev",
                on,
                TuneSetting::Disabled,
                params,
            );
            let mut v: Vec<PrimerData> = Vec::new();
            v.push(insert_fwd);
            v.push(insert_rev);
            v.push(vector_fwd);
            v.push(vector_rev);
            Some(v)
        },
    }
}

} // verus!
