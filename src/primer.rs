//! Primers, their binding sites on a target, and the tunable ends that trim them.

use std::ops::Range;

use vstd::prelude::*;

use crate::metrics::{PrimerMetrics, TmParams, calc_metrics, is_metrics_of, melting_temp_of};
use crate::sequence::{
    Nucleotide, lemma_parse_text_round_trip, parse_chars, reverse_complement, seq_text,
};
use crate::util::{make_seq_str, seq_complement, seq_from_str};

verus! {

/// The strand a primer anneals to: as written, or its reverse complement.
#[derive(Clone, Copy, Debug, PartialEq, Eq, Structural, Hash)]
pub enum PrimerDirection {
    Forward,
    Reverse,
}

/// One binding site: its direction, and the half-open index range it covers on the target.
pub type PrimerMatch = (PrimerDirection, Range<usize>);

/// A primer, by its effective sequence, 5' to 3'.
#[derive(Debug)]
pub struct Primer {
    pub sequence: Vec<Nucleotide>,
}

/// Whether `p` occurs verbatim in `t` starting at index `i`.
pub open spec fn occurs_at(p: Seq<Nucleotide>, t: Seq<Nucleotide>, i: int) -> bool {
    0 <= i && i + p.len() <= t.len() && t.subrange(i, i + p.len()) == p
}

/// The binding site of direction `dir` and length `n` that starts at `i`.
pub open spec fn site(dir: PrimerDirection, i: int, n: int) -> PrimerMatch {
    (dir, Range { start: i as usize, end: (i + n) as usize })
}

/// Every occurrence of `p` in `t` that starts before index `k`, in increasing order,
/// recorded with direction `dir`.
pub open spec fn occurrences_before(
    p: Seq<Nucleotide>,
    t: Seq<Nucleotide>,
    dir: PrimerDirection,
    k: int,
) -> Seq<PrimerMatch>
    decreases k,
{
    if k <= 0 {
        Seq::empty()
    } else {
        let prev = occurrences_before(p, t, dir, k - 1);
        if occurs_at(p, t, k - 1) {
            prev.push(site(dir, k - 1, p.len() as int))
        } else {
            prev
        }
    }
}

/// The binding sites of primer `p` on target `t`: the forward occurrences of `p`, then
/// the occurrences of its reverse complement, each in increasing order of start. An
/// empty primer has none. Sites are not wrapped round the end of the target.
pub open spec fn binding_sites(p: Seq<Nucleotide>, t: Seq<Nucleotide>) -> Seq<PrimerMatch> {
    if p.len() == 0 {
        Seq::empty()
    } else {
        occurrences_before(p, t, PrimerDirection::Forward, t.len() as int) + occurrences_before(
            reverse_complement(p),
            t,
            PrimerDirection::Reverse,
            t.len() as int,
        )
    }
}

/// Whether `p` occurs in `t` at `i`, compared base by base.
fn occurs_at_exec(p: &[Nucleotide], t: &[Nucleotide], i: usize) -> (r: bool)
    ensures
        r == occurs_at(p@, t@, i as int),
{
    if i > t.len() || p.len() > t.len() - i {
        return false;
    }
    let mut j: usize = 0;
    while j < p.len()
        invariant
            i + p.len() <= t.len(),
            j <= p.len(),
            forall|k: int| 0 <= k < j ==> t@[i + k] == p@[k],
        decreases p.len() - j,
    {
        if t[i + j] != p[j] {
            assert(t@.subrange(i as int, i + p.len())[j as int] != p@[j as int]);
            return false;
        }
        j += 1;
    }
    assert(t@.subrange(i as int, i + p.len()) =~= p@);
    true
}

/// Every occurrence of `p` in `t`, recorded with direction `dir`.
fn find_occurrences(p: &[Nucleotide], t: &[Nucleotide], dir: PrimerDirection) -> (r: Vec<
    PrimerMatch,
>)
    ensures
        r@ == occurrences_before(p@, t@, dir, t@.len() as int),
{
    let mut result: Vec<PrimerMatch> = Vec::new();
    let mut i: usize = 0;
    while i < t.len()
        invariant
            i <= t.len(),
            result@ == occurrences_before(p@, t@, dir, i as int),
        decreases t.len() - i,
    {
        if occurs_at_exec(p, t, i) {
            result.push((dir, i..i + p.len()));
        }
        i += 1;
    }
    result
}

impl Primer {
    /// Every binding site of this primer on `seq`: where its sequence occurs on the
    /// forward strand, then where its reverse complement occurs, in the coordinates of `seq`.
    pub fn match_to_seq(&self, seq: &[Nucleotide]) -> (r: Vec<PrimerMatch>)
        ensures
            r@ == binding_sites(self.sequence@, seq@),
    {
        if self.sequence.len() == 0 {
            return Vec::new();
        }
        let mut result = find_occurrences(self.sequence.as_slice(), seq, PrimerDirection::Forward);
        let rc = seq_complement(self.sequence.as_slice());
        let mut rev = find_occurrences(rc.as_slice(), seq, PrimerDirection::Reverse);
        result.append(&mut rev);
        result
    }
}

/// An occurrence that starts before `k` is among the occurrences found before `k`.
proof fn lemma_occurrence_listed(
    p: Seq<Nucleotide>,
    t: Seq<Nucleotide>,
    dir: PrimerDirection,
    i: int,
    k: int,
)
    requires
        occurs_at(p, t, i),
        i < k,
    ensures
        occurrences_before(p, t, dir, k).contains(site(dir, i, p.len() as int)),
    decreases k,
{
    if i == k - 1 {
        let s = occurrences_before(p, t, dir, k);
        assert(s[s.len() - 1] == site(dir, i, p.len() as int));
    } else {
        lemma_occurrence_listed(p, t, dir, i, k - 1);
        let prev = occurrences_before(p, t, dir, k - 1);
        let x = choose|j: int| 0 <= j < prev.len() && prev[j] == site(dir, i, p.len() as int);
        if occurs_at(p, t, k - 1) {
            assert(prev.push(site(dir, k - 1, p.len() as int))[x] == prev[x]);
        }
    }
}

/// Where a non-empty primer occurs on the target, its binding sites hold that forward
/// site; where its reverse complement occurs, they hold that reverse site.
pub proof fn lemma_matches_complete(p: Seq<Nucleotide>, t: Seq<Nucleotide>, i: int, j: int)
    requires
        p.len() > 0,
    ensures
        occurs_at(p, t, i) ==> binding_sites(p, t).contains(
            site(PrimerDirection::Forward, i, p.len() as int),
        ),
        occurs_at(reverse_complement(p), t, j) ==> binding_sites(p, t).contains(
            site(PrimerDirection::Reverse, j, p.len() as int),
        ),
{
    let n = t.len() as int;
    let fwd = occurrences_before(p, t, PrimerDirection::Forward, n);
    let rc = reverse_complement(p);
    let rev = occurrences_before(rc, t, PrimerDirection::Reverse, n);
    if occurs_at(p, t, i) {
        lemma_occurrence_listed(p, t, PrimerDirection::Forward, i, n);
        let x = choose|x: int| 0 <= x < fwd.len() && fwd[x] == site(PrimerDirection::Forward, i, p.len() as int);
        assert((fwd + rev)[x] == fwd[x]);
    }
    if occurs_at(rc, t, j) {
        lemma_occurrence_listed(rc, t, PrimerDirection::Reverse, j, n);
        let x = choose|x: int| 0 <= x < rev.len() && rev[x] == site(PrimerDirection::Reverse, j, rc.len() as int);
        assert((fwd + rev)[fwd.len() + x] == rev[x]);
    }
}


/// Whether one end of a primer may be trimmed, and if so by how many bases.
#[derive(Clone, Copy, Debug, PartialEq, Eq, Structural)]
pub enum TuneSetting {
    Disabled,
    /// The count of bases excluded from this end.
    Enabled(usize),
}

impl Default for TuneSetting {
    fn default() -> (r: TuneSetting)
        ensures
            r == TuneSetting::Disabled,
    {
        TuneSetting::Disabled
    }
}

/// The count of bases an end excludes: its offset where enabled, else 0.
pub open spec fn trim_of(t: TuneSetting) -> usize {
    match t {
        TuneSetting::Enabled(i) => i,
        TuneSetting::Disabled => 0,
    }
}

/// An end after a toggle: disabled becomes enabled with nothing trimmed, enabled becomes disabled.
pub open spec fn toggled(t: TuneSetting) -> TuneSetting {
    match t {
        TuneSetting::Disabled => TuneSetting::Enabled(0),
        TuneSetting::Enabled(_) => TuneSetting::Disabled,
    }
}

/// An end after a request to trim one more base, where the other end trims `other` and the
/// full sequence has `len` bases: granted only while at least one base would remain.
pub open spec fn trimmed_more(t: TuneSetting, other: TuneSetting, len: usize) -> TuneSetting {
    match t {
        TuneSetting::Enabled(i) => if i + 1 + trim_of(other) < len {
            TuneSetting::Enabled((i + 1) as usize)
        } else {
            t
        },
        TuneSetting::Disabled => t,
    }
}

/// An end after a request to trim one base less: granted only while its offset is above 0.
pub open spec fn trimmed_less(t: TuneSetting) -> TuneSetting {
    match t {
        TuneSetting::Enabled(i) => if i > 0 {
            TuneSetting::Enabled((i - 1) as usize)
        } else {
            t
        },
        TuneSetting::Disabled => t,
    }
}

impl TuneSetting {
    /// Disabled becomes `Enabled(0)`; enabled becomes disabled.
    pub fn toggle(&mut self)
        ensures
            *final(self) == toggled(*old(self)),
    {
        *self = match *self {
            TuneSetting::Disabled => TuneSetting::Enabled(0),
            TuneSetting::Enabled(_) => TuneSetting::Disabled,
        };
    }

    /// The count of bases this end excludes: its offset where enabled, else 0.
    pub fn val(&self) -> (r: usize)
        ensures
            r == trim_of(*self),
    {
        match self {
            TuneSetting::Enabled(i) => *i,
            TuneSetting::Disabled => 0,
        }
    }

    /// Trims one more base from this end, where enabled, unless that would leave no base of
    /// the `full_len` bases once the `other` end's trim is taken too; otherwise nothing changes.
    pub fn increment(&mut self, other: TuneSetting, full_len: usize)
        ensures
            *final(self) == trimmed_more(*old(self), other, full_len),
    {
        let other_len = other.val();
        match self {
            TuneSetting::Enabled(i) => {
                if other_len < full_len && *i < full_len - other_len - 1 {
                    *i = *i + 1;
                }
            },
            TuneSetting::Disabled => {},
        }
    }

    /// Trims one base less from this end, where enabled and above 0; otherwise nothing changes.
    pub fn decrement(&mut self)
        ensures
            *final(self) == trimmed_less(*old(self)),
    {
        match self {
            TuneSetting::Enabled(i) => {
                if *i > 0 {
                    *i = *i - 1;
                }
            },
            TuneSetting::Disabled => {},
        }
    }
}

/// The start and end of the bases kept from a sequence of `len` bases when `s` are trimmed
/// from the 5' end and `e` from the 3' end. Where nothing would remain (`s >= len - e`,
/// which covers `s + 1 > len`), the whole sequence is kept.
pub open spec fn tuned_bounds(len: int, s: int, e: int) -> (int, int) {
    if s + e >= len {
        (0, len)
    } else {
        (s, len - e)
    }
}

/// The effective sequence of a primer whose full sequence is `full`, under its two end settings.
pub open spec fn tuned_seq(full: Seq<Nucleotide>, t5: TuneSetting, t3: TuneSetting) -> Seq<
    Nucleotide,
> {
    let b = tuned_bounds(full.len() as int, trim_of(t5) as int, trim_of(t3) as int);
    full.subrange(b.0, b.1)
}

/// A 5' end after `n` requests to trim one more base, with the 3' end held at `t3`.
pub open spec fn trimmed_more_times(t5: TuneSetting, t3: TuneSetting, len: usize, n: nat) -> TuneSetting
    decreases n,
{
    if n == 0 {
        t5
    } else {
        trimmed_more(trimmed_more_times(t5, t3, len, (n - 1) as nat), t3, len)
    }
}

/// However often the 5' trim is raised while the 3' end trims `k` bases, the two trims
/// together stay below the full length `len`, starting from any such pair.
pub proof fn lemma_tune_clamp(len: usize, s: usize, k: usize, n: nat)
    requires
        s + k < len,
    ensures
        trimmed_more_times(TuneSetting::Enabled(s), TuneSetting::Enabled(k), len, n) matches TuneSetting::Enabled(x) && x + k < len,
    decreases n,
{
    if n > 0 {
        lemma_tune_clamp(len, s, k, (n - 1) as nat);
    }
}

/// A record whose two ends both trim its full length keeps the whole input as its
/// effective sequence, and removes nothing from either end.
pub proof fn lemma_degenerate_trim_keeps_all(d: PrimerData, params: TmParams, len: usize)
    requires
        d.full_seq().len() == len,
        d.tunable_5p == TuneSetting::Enabled(len),
        d.tunable_3p == TuneSetting::Enabled(len),
        d.is_synced(params),
    ensures
        d.primer.sequence@ == d.full_seq(),
        tuned_seq(d.full_seq(), d.tunable_5p, d.tunable_3p) == d.full_seq(),
        d.seq_removed_5p@.len() == 0,
        d.seq_removed_3p@.len() == 0,
{
    let full = d.full_seq();
    assert(full.subrange(0, full.len() as int) =~= full);
    assert(full.subrange(0, 0) =~= Seq::<Nucleotide>::empty());
    assert(full.subrange(full.len() as int, full.len() as int) =~= Seq::<Nucleotide>::empty());
}


/// A candidate primer as a user works with it: its full sequence, the trim of each end,
/// and what is derived from the trimmed sequence.
pub struct PrimerData {
    /// The effective primer: the full sequence less the trimmed ends.
    pub primer: Primer,
    /// The full, untrimmed sequence, as text.
    pub sequence_input: String,
    pub description: String,
    /// The metrics of the effective sequence; `None` while it is empty.
    pub metrics: Option<PrimerMetrics>,
    pub tunable_5p: TuneSetting,
    pub tunable_3p: TuneSetting,
    /// The text of the bases trimmed from the 5' end.
    pub seq_removed_5p: String,
    /// The text of the bases trimmed from the 3' end.
    pub seq_removed_3p: String,
    /// Binding sites on the amplification target.
    pub matches_amplification_seq: Vec<PrimerMatch>,
    /// Binding sites on the vector with its insert.
    pub matches_vector_with_insert: Vec<PrimerMatch>,
}

/// Whether the metrics slot holds the metrics of `s` under `params`: none for an empty sequence.
pub open spec fn metrics_slot_of(m: Option<PrimerMetrics>, s: Seq<Nucleotide>, params: TmParams) -> bool {
    match m {
        None => s.len() == 0,
        Some(m) => s.len() > 0 && is_metrics_of(m, s, melting_temp_of(s, params)),
    }
}

impl PrimerData {
    /// The full sequence this record was entered with.
    pub open spec fn full_seq(&self) -> Seq<Nucleotide> {
        parse_chars(self.sequence_input@)
    }

    /// The kept range of the full sequence, under the two end settings.
    pub open spec fn kept_bounds(&self) -> (int, int) {
        tuned_bounds(
            self.full_seq().len() as int,
            trim_of(self.tunable_5p) as int,
            trim_of(self.tunable_3p) as int,
        )
    }

    /// Whether everything derived from the full sequence and the end settings is current.
    pub open spec fn is_synced(&self, params: TmParams) -> bool {
        let full = self.full_seq();
        let b = self.kept_bounds();
        &&& self.primer.sequence@ == full.subrange(b.0, b.1)
        &&& self.seq_removed_5p@ == seq_text(full.subrange(0, b.0))
        &&& self.seq_removed_3p@ == seq_text(full.subrange(b.1, full.len() as int))
        &&& metrics_slot_of(self.metrics, self.primer.sequence@, params)
    }

    /// A record for the full sequence `sequence`, with the given description and end
    /// settings, its derived fields computed under `params`, and no binding sites yet.
    pub fn new(
        sequence: &[Nucleotide],
        description: &str,
        tunable_5p: TuneSetting,
        tunable_3p: TuneSetting,
        params: &TmParams,
    ) -> (r: PrimerData)
        ensures
            r.sequence_input@ == seq_text(sequence@),
            r.full_seq() == sequence@,
            r.description@ == description@,
            r.tunable_5p == tunable_5p,
            r.tunable_3p == tunable_3p,
            r.is_synced(*params),
            r.matches_amplification_seq@.len() == 0,
            r.matches_vector_with_insert@.len() == 0,
    {
        let sequence_input = make_seq_str(sequence);
        proof {
            lemma_parse_text_round_trip(sequence@);
        }
        let mut data = PrimerData {
            primer: Primer { sequence: Vec::new() },
            sequence_input,
            description: description.to_owned(),
            metrics: None,
            tunable_5p,
            tunable_3p,
            seq_removed_5p: String::new(),
            seq_removed_3p: String::new(),
            matches_amplification_seq: Vec::new(),
            matches_vector_with_insert: Vec::new(),
        };
        data.run_calcs(params);
        data
    }

    /// The effective sequence: the full sequence with the trimmed ends left out, or the
    /// whole of it where the trims would leave nothing.
    pub fn effective_seq(&self) -> (r: Vec<Nucleotide>)
        ensures
            r@ == tuned_seq(self.full_seq(), self.tunable_5p, self.tunable_3p),
    {
        let full = seq_from_str(self.sequence_input.as_str());
        let (start, end) = kept_range(full.len(), self.tunable_5p.val(), self.tunable_3p.val());
        vstd::slice::slice_to_vec(&full.as_slice()[start..end])
    }

    /// Recomputes the effective sequence, the removed ends and the metrics from the full
    /// sequence and the end settings; the rest of the record is unchanged.
    pub fn run_calcs(&mut self, params: &TmParams)
        ensures
            final(self).is_synced(*params),
            final(self).sequence_input == old(self).sequence_input,
            final(self).description == old(self).description,
            final(self).tunable_5p == old(self).tunable_5p,
            final(self).tunable_3p == old(self).tunable_3p,
            final(self).matches_amplification_seq == old(self).matches_amplification_seq,
            final(self).matches_vector_with_insert == old(self).matches_vector_with_insert,
    {
        let full = seq_from_str(self.sequence_input.as_str());
        let n = full.len();
        let (start, end) = kept_range(n, self.tunable_5p.val(), self.tunable_3p.val());
        let sequence = vstd::slice::slice_to_vec(&full.as_slice()[start..end]);
        self.seq_removed_5p = make_seq_str(&full.as_slice()[0..start]);
        self.seq_removed_3p = make_seq_str(&full.as_slice()[end..n]);
        self.metrics = calc_metrics(sequence.as_slice(), params);
        self.primer = Primer { sequence };
    }

    /// Whether `self` and `other` agree on the description and the binding sites.
    pub open spec fn same_labels(&self, other: &PrimerData) -> bool {
        &&& self.description == other.description
        &&& self.matches_amplification_seq == other.matches_amplification_seq
        &&& self.matches_vector_with_insert == other.matches_vector_with_insert
    }

    /// Toggles the 5' end between disabled and enabled, then recomputes.
    pub fn toggle_5p(&mut self, params: &TmParams)
        ensures
            final(self).tunable_5p == toggled(old(self).tunable_5p),
            final(self).tunable_3p == old(self).tunable_3p,
            final(self).sequence_input == old(self).sequence_input,
            final(self).same_labels(old(self)),
            final(self).is_synced(*params),
    {
        self.tunable_5p.toggle();
        self.run_calcs(params);
    }

    /// Toggles the 3' end between disabled and enabled, then recomputes.
    pub fn toggle_3p(&mut self, params: &TmParams)
        ensures
            final(self).tunable_3p == toggled(old(self).tunable_3p),
            final(self).tunable_5p == old(self).tunable_5p,
            final(self).sequence_input == old(self).sequence_input,
            final(self).same_labels(old(self)),
            final(self).is_synced(*params),
    {
        self.tunable_3p.toggle();
        self.run_calcs(params);
    }

    /// Asks to trim one more base from the 5' end, then recomputes.
    pub fn tune_5p_increment(&mut self, params: &TmParams)
        ensures
            final(self).tunable_5p == trimmed_more(
                old(self).tunable_5p,
                old(self).tunable_3p,
                old(self).full_seq().len() as usize,
            ),
            final(self).tunable_3p == old(self).tunable_3p,
            final(self).sequence_input == old(self).sequence_input,
            final(self).same_labels(old(self)),
            final(self).is_synced(*params),
    {
        let full_len = seq_from_str(self.sequence_input.as_str()).len();
        let other = self.tunable_3p;
        self.tunable_5p.increment(other, full_len);
        self.run_calcs(params);
    }

    /// Asks to trim one base less from the 5' end, then recomputes.
    pub fn tune_5p_decrement(&mut self, params: &TmParams)
        ensures
            final(self).tunable_5p == trimmed_less(old(self).tunable_5p),
            final(self).tunable_3p == old(self).tunable_3p,
            final(self).sequence_input == old(self).sequence_input,
            final(self).same_labels(old(self)),
            final(self).is_synced(*params),
    {
        self.tunable_5p.decrement();
        self.run_calcs(params);
    }

    /// Asks to trim one more base from the 3' end, then recomputes.
    pub fn tune_3p_increment(&mut self, params: &TmParams)
        ensures
            final(self).tunable_3p == trimmed_more(
                old(self).tunable_3p,
                old(self).tunable_5p,
                old(self).full_seq().len() as usize,
            ),
            final(self).tunable_5p == old(self).tunable_5p,
            final(self).sequence_input == old(self).sequence_input,
            final(self).same_labels(old(self)),
            final(self).is_synced(*params),
    {
        let full_len = seq_from_str(self.sequence_input.as_str()).len();
        let other = self.tunable_5p;
        self.tunable_3p.increment(other, full_len);
        self.run_calcs(params);
    }

    /// Asks to trim one base less from the 3' end, then recomputes.
    pub fn tune_3p_decrement(&mut self, params: &TmParams)
        ensures
            final(self).tunable_3p == trimmed_less(old(self).tunable_3p),
            final(self).tunable_5p == old(self).tunable_5p,
            final(self).sequence_input == old(self).sequence_input,
            final(self).same_labels(old(self)),
            final(self).is_synced(*params),
    {
        self.tunable_3p.decrement();
        self.run_calcs(params);
    }

    /// Replaces the full sequence with the one read from `text`, stored in its normal
    /// upper-case form, then recomputes.
    pub fn set_sequence_text(&mut self, text: &str, params: &TmParams)
        ensures
            final(self).sequence_input@ == seq_text(parse_chars(text@)),
            final(self).full_seq() == parse_chars(text@),
            final(self).tunable_5p == old(self).tunable_5p,
            final(self).tunable_3p == old(self).tunable_3p,
            final(self).same_labels(old(self)),
            final(self).is_synced(*params),
    {
        let seq = seq_from_str(text);
        self.sequence_input = make_seq_str(seq.as_slice());
        proof {
            lemma_parse_text_round_trip(seq@);
        }
        self.run_calcs(params);
    }

    /// Recomputes the binding sites on the amplification target and on the vector with its
    /// insert; the rest of the record is unchanged.
    pub fn sync_matches(&mut self, seq_amplicon: &[Nucleotide], seq_vector_with_insert: &[Nucleotide])
        ensures
            final(self).matches_amplification_seq@ == binding_sites(
                old(self).primer.sequence@,
                seq_amplicon@,
            ),
            final(self).matches_vector_with_insert@ == binding_sites(
                old(self).primer.sequence@,
                seq_vector_with_insert@,
            ),
            final(self).primer == old(self).primer,
            final(self).sequence_input == old(self).sequence_input,
            final(self).description == old(self).description,
            final(self).metrics == old(self).metrics,
            final(self).tunable_5p == old(self).tunable_5p,
            final(self).tunable_3p == old(self).tunable_3p,
            final(self).seq_removed_5p == old(self).seq_removed_5p,
            final(self).seq_removed_3p == old(self).seq_removed_3p,
    {
        self.matches_amplification_seq = self.primer.match_to_seq(seq_amplicon);
        self.matches_vector_with_insert = self.primer.match_to_seq(seq_vector_with_insert);
    }
}

impl Default for PrimerData {
    /// The empty record: no sequence, no description, both ends disabled.
    fn default() -> (r: PrimerData)
        ensures
            r.sequence_input@.len() == 0,
            r.description@.len() == 0,
            r.tunable_5p == TuneSetting::Disabled,
            r.tunable_3p == TuneSetting::Disabled,
            r.primer.sequence@.len() == 0,
            r.metrics is None,
            r.seq_removed_5p@.len() == 0,
            r.seq_removed_3p@.len() == 0,
            r.matches_amplification_seq@.len() == 0,
            r.matches_vector_with_insert@.len() == 0,
    {
        PrimerData {
            primer: Primer { sequence: Vec::new() },
            sequence_input: String::new(),
            description: String::new(),
            metrics: None,
            tunable_5p: TuneSetting::Disabled,
            tunable_3p: TuneSetting::Disabled,
            seq_removed_5p: String::new(),
            seq_removed_3p: String::new(),
            matches_amplification_seq: Vec::new(),
            matches_vector_with_insert: Vec::new(),
        }
    }
}

/// The kept range of a sequence of `len` bases with `s` bases trimmed from the 5' end and
/// `e` from the 3' end; the whole sequence where nothing would remain.
pub fn kept_range(len: usize, s: usize, e: usize) -> (r: (usize, usize))
    ensures
        r.0 == tuned_bounds(len as int, s as int, e as int).0,
        r.1 == tuned_bounds(len as int, s as int, e as int).1,
        r.0 <= r.1 <= len,
{
    if s >= len || e >= len - s {
        (0, len)
    } else {
        (s, len - e)
    }
}

} // verus!
