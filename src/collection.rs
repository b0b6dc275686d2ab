//! Operations on the list of candidate records that a user works with: keeping a
//! selection valid, reordering, recomputing after a change of reaction conditions, and
//! re-locating binding sites.

use vstd::prelude::*;

use crate::metrics::TmParams;
use crate::primer::{PrimerData, binding_sites};
use crate::sequence::Nucleotide;

verus! {

/// A selection that still names a record: kept where it is below `len`, else cleared.
pub fn checked_selection(selected: Option<usize>, len: usize) -> (r: Option<usize>)
    ensures
        r == (match selected {
            Some(i) => if i < len {
                Some(i)
            } else {
                None
            },
            None => None,
        }),
{
    match selected {
        Some(i) => if i < len {
            Some(i)
        } else {
            None
        },
        None => None,
    }
}

/// Moves the selected record one place up, swapping it with the one before, and returns
/// where the selection now stands. The first record stays where it is.
pub fn move_up(records: &mut Vec<PrimerData>, sel: usize) -> (r: usize)
    requires
        sel < old(records)@.len(),
    ensures
        sel == 0 ==> r == 0 && final(records)@ == old(records)@,
        sel > 0 ==> r == sel - 1 && final(records)@ == old(records)@.update(
            sel - 1,
            old(records)@[sel as int],
        ).update(sel as int, old(records)@[sel - 1]),
{
    if sel == 0 {
        return 0;
    }
    let ghost before = records@;
    let item = records.remove(sel);
    records.insert(sel - 1, item);
    assert(records@ =~= before.update(sel - 1, before[sel as int]).update(
        sel as int,
        before[sel - 1],
    ));
    sel - 1
}

/// Moves the selected record one place down, swapping it with the one after, and returns
/// where the selection now stands. The last record stays where it is.
pub fn move_down(records: &mut Vec<PrimerData>, sel: usize) -> (r: usize)
    requires
        sel < old(records)@.len(),
    ensures
        sel + 1 == old(records)@.len() ==> r == sel && final(records)@ == old(records)@,
        sel + 1 < old(records)@.len() ==> r == sel + 1 && final(records)@ == old(
            records,
        )@.update(sel as int, old(records)@[sel + 1]).update(sel + 1, old(records)@[sel as int]),
{
    if sel == records.len() - 1 {
        return sel;
    }
    let ghost before = records@;
    let item = records.remove(sel);
    records.insert(sel + 1, item);
    assert(records@ =~= before.update(sel as int, before[sel + 1]).update(
        sel + 1,
        before[sel as int],
    ));
    sel + 1
}

/// Recomputes every record under new reaction conditions, so that all of them reflect
/// the same `params`; sequences, end settings and labels are unchanged.
pub fn recompute_all(records: &mut Vec<PrimerData>, params: &TmParams)
    ensures
        final(records)@.len() == old(records)@.len(),
        forall|i: int|
            0 <= i < final(records)@.len() ==> {
                &&& (#[trigger] final(records)@[i]).is_synced(*params)
                &&& final(records)@[i].sequence_input == old(records)@[i].sequence_input
                &&& final(records)@[i].tunable_5p == old(records)@[i].tunable_5p
                &&& final(records)@[i].tunable_3p == old(records)@[i].tunable_3p
                &&& final(records)@[i].same_labels(&old(records)@[i])
            },
{
    let ghost before = records@;
    let mut i: usize = 0;
    while i < records.len()
        invariant
            records@.len() == before.len(),
            i <= records@.len(),
            forall|k: int|
                0 <= k < i ==> {
                    &&& (#[trigger] records@[k]).is_synced(*params)
                    &&& records@[k].sequence_input == before[k].sequence_input
                    &&& records@[k].tunable_5p == before[k].tunable_5p
                    &&& records@[k].tunable_3p == before[k].tunable_3p
                    &&& records@[k].same_labels(&before[k])
                },
            forall|k: int| i <= k < records@.len() ==> #[trigger] records@[k] == before[k],
        decreases records@.len() - i,
    {
        records[i].run_calcs(params);
        i += 1;
    }
}

/// Whether record `d` holds the binding sites of its effective primer on both targets.
pub open spec fn matches_synced(
    d: PrimerData,
    seq_amplicon: Seq<Nucleotide>,
    seq_vector_with_insert: Seq<Nucleotide>,
) -> bool {
    &&& d.matches_amplification_seq@ == binding_sites(d.primer.sequence@, seq_amplicon)
    &&& d.matches_vector_with_insert@ == binding_sites(d.primer.sequence@, seq_vector_with_insert)
}

/// Re-locates the binding sites on both targets: of the record at `only` where given
/// (nothing where it names no record), else of every record. Everything else is unchanged.
pub fn sync_primer_matches(
    records: &mut Vec<PrimerData>,
    seq_amplicon: &[Nucleotide],
    seq_vector_with_insert: &[Nucleotide],
    only: Option<usize>,
)
    ensures
        final(records)@.len() == old(records)@.len(),
        forall|i: int|
            0 <= i < final(records)@.len() ==> {
                let d = #[trigger] final(records)@[i];
                let e = old(records)@[i];
                &&& d.primer == e.primer
                &&& d.sequence_input == e.sequence_input
                &&& d.description == e.description
                &&& d.metrics == e.metrics
                &&& d.tunable_5p == e.tunable_5p
                &&& d.tunable_3p == e.tunable_3p
                &&& d.seq_removed_5p == e.seq_removed_5p
                &&& d.seq_removed_3p == e.seq_removed_3p
                &&& if only is None || only == Some(i as usize) {
                    matches_synced(d, seq_amplicon@, seq_vector_with_insert@)
                } else {
                    d.matches_amplification_seq == e.matches_amplification_seq
                        && d.matches_vector_with_insert == e.matches_vector_with_insert
                }
            },
{
    match only {
        Some(k) => {
            if k < records.len() {
                records[k].sync_matches(seq_amplicon, seq_vector_with_insert);
            }
        },
        None => {
            let ghost before = records@;
            let mut i: usize = 0;
            while i < records.len()
                invariant
                    only is None,
                    records@.len() == before.len(),
                    i <= records@.len(),
                    forall|k: int|
                        0 <= k < i ==> {
                            let d = #[trigger] records@[k];
                            let e = before[k];
                            &&& d.primer == e.primer
                            &&& d.sequence_input == e.sequence_input
                            &&& d.description == e.description
                            &&& d.metrics == e.metrics
                            &&& d.tunable_5p == e.tunable_5p
                            &&& d.tunable_3p == e.tunable_3p
                            &&& d.seq_removed_5p == e.seq_removed_5p
                            &&& d.seq_removed_3p == e.seq_removed_3p
                            &&& matches_synced(d, seq_amplicon@, seq_vector_with_insert@)
                        },
                    forall|k: int| i <= k < records@.len() ==> #[trigger] records@[k] == before[k],
                decreases records@.len() - i,
            {
                records[i].sync_matches(seq_amplicon, seq_vector_with_insert);
                i += 1;
            }
        },
    }
}

/// The vector with the insert placed before vector base `insert_loc` (at the end, where
/// `insert_loc` is past it).
pub fn cloning_product(seq_vector: &[Nucleotide], seq_insert: &[Nucleotide], insert_loc: usize) -> (r: Vec<Nucleotide>)
    ensures
        ({
            let loc = if insert_loc <= seq_vector@.len() {
                insert_loc as int
            } else {
                seq_vector@.len() as int
            };
            r@ == seq_vector@.subrange(0, loc) + seq_insert@ + seq_vector@.subrange(
                loc,
                seq_vector@.len() as int,
            )
        }),
{
    let n = seq_vector.len();
    let loc = if insert_loc <= n {
        insert_loc
    } else {
        n
    };
    let mut r = vstd::slice::slice_to_vec(&seq_vector[0..loc]);
    let mut mid = vstd::slice::slice_to_vec(seq_insert);
    let mut tail = vstd::slice::slice_to_vec(&seq_vector[loc..n]);
    r.append(&mut mid);
    r.append(&mut tail);
    r
}

/// Moves the insertion point one base later, while it stays below `vector_len - 1`.
pub fn insert_loc_increment(insert_loc: usize, vector_len: usize) -> (r: usize)
    ensures
        r == if insert_loc + 1 < vector_len {
            insert_loc + 1
        } else {
            insert_loc as int
        },
{
    if insert_loc < vector_len && insert_loc + 1 < vector_len {
        insert_loc + 1
    } else {
        insert_loc
    }
}

/// Moves the insertion point one base earlier, stopping at 0.
pub fn insert_loc_decrement(insert_loc: usize) -> (r: usize)
    ensures
        r == if insert_loc > 0 {
            insert_loc - 1
        } else {
            0
        },
{
    if insert_loc > 0 {
        insert_loc - 1
    } else {
        0
    }
}

} // verus!
