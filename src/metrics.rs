//! Primer quality metrics: melting temperature by nearest-neighbour thermodynamics,
//! GC content, 3' stability, self-end dimers, repeats, and their scores.
//!
//! Scores are integers from 0 to 1000 (per mille); temperatures are in tenths of a
//! degree Celsius.

use vstd::prelude::*;

use crate::sequence::{Nucleotide, is_gc, nt_complement};

verus! {

/// The melting temperature that scores best, in tenths of a degree Celsius.
pub const TM_IDEAL: i128 = 595;

/// The number of 3' bases whose G and C count gives the 3' stability.
pub const GC_3P_WINDOW: usize = 5;

/// The number of 3' bases examined for self-complementarity.
pub const DIMER_WINDOW: usize = 8;

/// The entropy terms of the melting-temperature formula that depend on the reaction
/// conditions alone, in thousandths of a cal/(K mol): `conc_entropy` is R ln(Ct / 4) for
/// the primer-strand concentration Ct, and `salt_entropy_per_pair` is the salt correction
/// 0.368 ln([Na+] equivalent), applied once per nearest-neighbour pair.
#[derive(Clone, Copy, Debug, PartialEq, Eq, Structural)]
pub struct TmParams {
    pub conc_entropy: i32,
    pub salt_entropy_per_pair: i32,
}

/// The enthalpy of a nearest-neighbour stack 5'-ab-3', in tenths of a kcal/mol.
pub open spec fn nn_dh(a: Nucleotide, b: Nucleotide) -> int {
    match (a, b) {
        (Nucleotide::A, Nucleotide::A) | (Nucleotide::T, Nucleotide::T) => -79,
        (Nucleotide::A, Nucleotide::T) => -72,
        (Nucleotide::T, Nucleotide::A) => -72,
        (Nucleotide::C, Nucleotide::A) | (Nucleotide::T, Nucleotide::G) => -85,
        (Nucleotide::G, Nucleotide::T) | (Nucleotide::A, Nucleotide::C) => -84,
        (Nucleotide::C, Nucleotide::T) | (Nucleotide::A, Nucleotide::G) => -78,
        (Nucleotide::G, Nucleotide::A) | (Nucleotide::T, Nucleotide::C) => -82,
        (Nucleotide::C, Nucleotide::G) => -106,
        (Nucleotide::G, Nucleotide::C) => -98,
        (Nucleotide::G, Nucleotide::G) | (Nucleotide::C, Nucleotide::C) => -80,
    }
}

/// The entropy of a nearest-neighbour stack 5'-ab-3', in tenths of a cal/(K mol).
pub open spec fn nn_ds(a: Nucleotide, b: Nucleotide) -> int {
    match (a, b) {
        (Nucleotide::A, Nucleotide::A) | (Nucleotide::T, Nucleotide::T) => -222,
        (Nucleotide::A, Nucleotide::T) => -204,
        (Nucleotide::T, Nucleotide::A) => -213,
        (Nucleotide::C, Nucleotide::A) | (Nucleotide::T, Nucleotide::G) => -227,
        (Nucleotide::G, Nucleotide::T) | (Nucleotide::A, Nucleotide::C) => -224,
        (Nucleotide::C, Nucleotide::T) | (Nucleotide::A, Nucleotide::G) => -210,
        (Nucleotide::G, Nucleotide::A) | (Nucleotide::T, Nucleotide::C) => -222,
        (Nucleotide::C, Nucleotide::G) => -272,
        (Nucleotide::G, Nucleotide::C) => -244,
        (Nucleotide::G, Nucleotide::G) | (Nucleotide::C, Nucleotide::C) => -199,
    }
}

/// The initiation enthalpy of a terminal base, in tenths of a kcal/mol.
pub open spec fn init_dh(n: Nucleotide) -> int {
    if is_gc(n) {
        1
    } else {
        23
    }
}

/// The initiation entropy of a terminal base, in tenths of a cal/(K mol).
pub open spec fn init_ds(n: Nucleotide) -> int {
    if is_gc(n) {
        -28
    } else {
        41
    }
}

/// The enthalpy of the stacks among the first `k` bases of `s`.
pub open spec fn stack_dh(s: Seq<Nucleotide>, k: int) -> int
    decreases k,
{
    if k <= 1 {
        0
    } else {
        stack_dh(s, k - 1) + nn_dh(s[k - 2], s[k - 1])
    }
}

/// The entropy of the stacks among the first `k` bases of `s`.
pub open spec fn stack_ds(s: Seq<Nucleotide>, k: int) -> int
    decreases k,
{
    if k <= 1 {
        0
    } else {
        stack_ds(s, k - 1) + nn_ds(s[k - 2], s[k - 1])
    }
}

/// The duplex enthalpy of a non-empty sequence: its stacks and its two terminal initiations,
/// in tenths of a kcal/mol.
pub open spec fn duplex_dh(s: Seq<Nucleotide>) -> int {
    stack_dh(s, s.len() as int) + init_dh(s[0]) + init_dh(s.last())
}

/// The duplex entropy of a non-empty sequence under the reaction conditions, with the
/// concentration and salt terms, in thousandths of a cal/(K mol).
pub open spec fn duplex_ds(s: Seq<Nucleotide>, p: TmParams) -> int {
    (stack_ds(s, s.len() as int) + init_ds(s[0]) + init_ds(s.last())) * 100 + p.conc_entropy
        + (s.len() - 1) * p.salt_entropy_per_pair
}

/// The melting temperature of a sequence, in tenths of a degree Celsius: the two-state
/// formula dH / dS, less 273.2 degrees. It is 0 for an empty sequence, and where the
/// enthalpy and entropy are not both negative (no stable duplex).
pub open spec fn melting_temp_of(s: Seq<Nucleotide>, p: TmParams) -> int {
    if s.len() == 0 {
        0
    } else {
        let dh = duplex_dh(s);
        let ds = duplex_ds(s, p);
        if dh < 0 && ds < 0 {
            (-dh * 1_000_000) / (-ds) - 2732
        } else {
            0
        }
    }
}

fn nn_params(a: Nucleotide, b: Nucleotide) -> (r: (i128, i128))
    ensures
        r.0 == nn_dh(a, b),
        r.1 == nn_ds(a, b),
{
    match (a, b) {
        (Nucleotide::A, Nucleotide::A) | (Nucleotide::T, Nucleotide::T) => (-79, -222),
        (Nucleotide::A, Nucleotide::T) => (-72, -204),
        (Nucleotide::T, Nucleotide::A) => (-72, -213),
        (Nucleotide::C, Nucleotide::A) | (Nucleotide::T, Nucleotide::G) => (-85, -227),
        (Nucleotide::G, Nucleotide::T) | (Nucleotide::A, Nucleotide::C) => (-84, -224),
        (Nucleotide::C, Nucleotide::T) | (Nucleotide::A, Nucleotide::G) => (-78, -210),
        (Nucleotide::G, Nucleotide::A) | (Nucleotide::T, Nucleotide::C) => (-82, -222),
        (Nucleotide::C, Nucleotide::G) => (-106, -272),
        (Nucleotide::G, Nucleotide::C) => (-98, -244),
        (Nucleotide::G, Nucleotide::G) | (Nucleotide::C, Nucleotide::C) => (-80, -199),
    }
}

fn init_params(n: Nucleotide) -> (r: (i128, i128))
    ensures
        r.0 == init_dh(n),
        r.1 == init_ds(n),
{
    match n {
        Nucleotide::G | Nucleotide::C => (1, -28),
        _ => (23, 41),
    }
}

/// The melting temperature of `seq` under the reaction conditions `params`, in tenths of
/// a degree Celsius, by the nearest-neighbour model.
pub fn calc_tm(seq: &[Nucleotide], params: &TmParams) -> (r: i128)
    ensures
        r == melting_temp_of(seq@, *params),
{
    let n = seq.len();
    if n == 0 {
        return 0;
    }
    let mut dh: i128 = 0;
    let mut ds: i128 = 0;
    let mut k: usize = 1;
    while k < n
        invariant
            n == seq.len(),
            1 <= k <= n,
            dh == stack_dh(seq@, k as int),
            ds == stack_ds(seq@, k as int),
            -106 * k <= dh <= 0,
            -272 * k <= ds <= 0,
        decreases n - k,
    {
        let (h, s) = nn_params(seq[k - 1], seq[k]);
        dh = dh + h;
        ds = ds + s;
        k += 1;
    }
    let (h0, s0) = init_params(seq[0]);
    let (h1, s1) = init_params(seq[n - 1]);
    let dh = dh + h0 + h1;
    assert(seq@.last() == seq@[n - 1]);
    proof {
        let a = n as int - 1;
        let b = params.salt_entropy_per_pair as int;
        assert(-0x8000_0000 <= b <= 0x8000_0000);
        assert(0 <= a <= 0x1_0000_0000_0000_0000);
        assert(-0x8000_0000_0000_0000_0000_0000 <= a * b <= 0x8000_0000_0000_0000_0000_0000)
            by (nonlinear_arith)
            requires
                -0x8000_0000 <= b <= 0x8000_0000,
                0 <= a <= 0x1_0000_0000_0000_0000,
        ;
    }
    let salt: i128 = (n as i128 - 1) * (params.salt_entropy_per_pair as i128);
    let ds = (ds + s0 + s1) * 100 + params.conc_entropy as i128 + salt;
    if dh < 0 && ds < 0 {
        (-dh * 1_000_000) / (-ds) - 2732
    } else {
        0
    }
}


/// The count of G and C bases in `s`.
pub open spec fn gc_count(s: Seq<Nucleotide>) -> nat
    decreases s.len(),
{
    if s.len() == 0 {
        0
    } else {
        gc_count(s.drop_last()) + if is_gc(s.last()) {
            1nat
        } else {
            0nat
        }
    }
}

/// The G and C bases of a non-empty sequence, per mille of its length, rounded down.
pub open spec fn gc_per_mille(s: Seq<Nucleotide>) -> int {
    (gc_count(s) * 1000) as int / s.len() as int
}

/// The 3' stability: the count of G and C among the last five bases (all of them, where fewer).
pub open spec fn gc_3p_count_of(s: Seq<Nucleotide>) -> nat {
    let w = if s.len() < GC_3P_WINDOW {
        s.len() as int
    } else {
        GC_3P_WINDOW as int
    };
    gc_count(s.subrange(s.len() - w, s.len() as int))
}

/// Whether, with the last `w` bases of `s` folded back on themselves, base `i` of them
/// pairs with its opposite, base `w - 1 - i`.
pub open spec fn folds_back_at(s: Seq<Nucleotide>, w: int, i: int) -> bool {
    s[s.len() - w + i] == nt_complement(s[s.len() - 1 - i])
}

/// The count of `i < k` at which the last `w` bases of `s` pair when folded back.
pub open spec fn fold_pairs(s: Seq<Nucleotide>, w: int, k: int) -> nat
    decreases k,
{
    if k <= 0 {
        0
    } else {
        fold_pairs(s, w, k - 1) + if folds_back_at(s, w, k - 1) {
            1nat
        } else {
            0nat
        }
    }
}

/// The self-end dimer count: how many of the last eight bases (all of them, where fewer)
/// pair with the 3' end of the same strand folded back on itself.
pub open spec fn self_end_dimer_of(s: Seq<Nucleotide>) -> nat {
    let w = if s.len() < DIMER_WINDOW {
        s.len() as int
    } else {
        DIMER_WINDOW as int
    };
    fold_pairs(s, w, w)
}

/// Whether a run of at least five copies of one base starts at `i`.
pub open spec fn run_starts_at(s: Seq<Nucleotide>, i: int) -> bool {
    &&& 0 <= i
    &&& i + 5 <= s.len()
    &&& s[i + 1] == s[i]
    &&& s[i + 2] == s[i]
    &&& s[i + 3] == s[i]
    &&& s[i + 4] == s[i]
    &&& (i == 0 || s[i - 1] != s[i])
}

/// Whether a run of at least five copies of a two-base motif of two different bases starts at `i`.
pub open spec fn pair_run_starts_at(s: Seq<Nucleotide>, i: int) -> bool {
    &&& 0 <= i
    &&& i + 10 <= s.len()
    &&& s[i] != s[i + 1]
    &&& forall|j: int| 2 <= j < 10 ==> #[trigger] s[i + j] == s[i + j - 2]
    &&& (i < 2 || s[i - 2] != s[i] || s[i - 1] != s[i + 1])
}

/// Whether the three bases at `i` equal the three at `j`.
pub open spec fn same_triplet(s: Seq<Nucleotide>, i: int, j: int) -> bool {
    s[i] == s[j] && s[i + 1] == s[j + 1] && s[i + 2] == s[j + 2]
}

/// Whether the three bases at `j` repeat three bases that start earlier.
pub open spec fn triplet_repeats_at(s: Seq<Nucleotide>, j: int) -> bool {
    &&& 0 <= j
    &&& j + 3 <= s.len()
    &&& exists|i: int| 0 <= i < j && #[trigger] same_triplet(s, i, j)
}

/// The count of positions below `k` where a single-base run, a two-base run, or a repeated
/// triplet starts (each kind counted on its own).
pub open spec fn repeats_before(s: Seq<Nucleotide>, k: int) -> nat
    decreases k,
{
    if k <= 0 {
        0
    } else {
        repeats_before(s, k - 1) + (if run_starts_at(s, k - 1) {
            1nat
        } else {
            0nat
        }) + (if pair_run_starts_at(s, k - 1) {
            1nat
        } else {
            0nat
        }) + (if triplet_repeats_at(s, k - 1) {
            1nat
        } else {
            0nat
        })
    }
}

/// The repeat count: runs of one base or of a two-base motif more than four long, and
/// three-base motifs that occur again.
pub open spec fn repeats_of(s: Seq<Nucleotide>) -> nat {
    repeats_before(s, s.len() as int)
}

/// The count of G and C bases in `seq[a..b]`.
fn count_gc(seq: &[Nucleotide], a: usize, b: usize) -> (r: usize)
    requires
        a <= b <= seq.len(),
    ensures
        r == gc_count(seq@.subrange(a as int, b as int)),
        r <= b - a,
{
    let mut count: usize = 0;
    let mut i: usize = a;
    while i < b
        invariant
            a <= i <= b <= seq.len(),
            count == gc_count(seq@.subrange(a as int, i as int)),
            count <= i - a,
        decreases b - i,
    {
        assert(seq@.subrange(a as int, i + 1).drop_last() =~= seq@.subrange(a as int, i as int));
        if seq[i] == Nucleotide::G || seq[i] == Nucleotide::C {
            count += 1;
        }
        i += 1;
    }
    count
}

/// The self-end dimer count of `seq`.
fn self_end_dimer(seq: &[Nucleotide]) -> (r: usize)
    ensures
        r == self_end_dimer_of(seq@),
        r <= DIMER_WINDOW,
{
    let n = seq.len();
    let w = if n < DIMER_WINDOW {
        n
    } else {
        DIMER_WINDOW
    };
    let mut count: usize = 0;
    let mut i: usize = 0;
    while i < w
        invariant
            n == seq.len(),
            w <= n,
            w <= DIMER_WINDOW,
            i <= w,
            count == fold_pairs(seq@, w as int, i as int),
            count <= i,
        decreases w - i,
    {
        if seq[n - w + i] == seq[n - 1 - i].complement() {
            count += 1;
        }
        i += 1;
    }
    count
}

fn run_starts(seq: &[Nucleotide], i: usize) -> (r: bool)
    requires
        i < seq.len(),
    ensures
        r == run_starts_at(seq@, i as int),
{
    let n = seq.len();
    if n < 5 || i > n - 5 {
        return false;
    }
    let b = seq[i];
    seq[i + 1] == b && seq[i + 2] == b && seq[i + 3] == b && seq[i + 4] == b && (i == 0 || seq[i
        - 1] != b)
}

fn pair_run_starts(seq: &[Nucleotide], i: usize) -> (r: bool)
    requires
        i < seq.len(),
    ensures
        r == pair_run_starts_at(seq@, i as int),
{
    let n = seq.len();
    if n < 10 || i > n - 10 || seq[i] == seq[i + 1] {
        return false;
    }
    if i >= 2 && seq[i - 2] == seq[i] && seq[i - 1] == seq[i + 1] {
        return false;
    }
    let mut j: usize = 2;
    while j < 10
        invariant
            n == seq.len(),
            i + 10 <= n,
            2 <= j <= 10,
            forall|k: int| 2 <= k < j ==> #[trigger] seq@[i + k] == seq@[i + k - 2],
        decreases 10 - j,
    {
        if seq[i + j] != seq[i + j - 2] {
            assert(seq@[i + j as int] != seq@[i + j as int - 2]);
            return false;
        }
        j += 1;
    }
    true
}

fn triplet_repeats(seq: &[Nucleotide], j: usize) -> (r: bool)
    requires
        j < seq.len(),
    ensures
        r == triplet_repeats_at(seq@, j as int),
{
    let n = seq.len();
    if n < 3 || j > n - 3 {
        return false;
    }
    let mut i: usize = 0;
    while i < j
        invariant
            n == seq.len(),
            j + 3 <= n,
            i <= j,
            forall|k: int| 0 <= k < i ==> !#[trigger] same_triplet(seq@, k, j as int),
        decreases j - i,
    {
        if seq[i] == seq[j] && seq[i + 1] == seq[j + 1] && seq[i + 2] == seq[j + 2] {
            assert(same_triplet(seq@, i as int, j as int));
            return true;
        }
        i += 1;
    }
    false
}

/// The repeat count of `seq`.
fn count_repeats(seq: &[Nucleotide]) -> (r: u128)
    ensures
        r == repeats_of(seq@),
{
    let n = seq.len();
    let mut count: u128 = 0;
    let mut i: usize = 0;
    while i < n
        invariant
            n == seq.len(),
            i <= n,
            count == repeats_before(seq@, i as int),
            count <= 3 * i,
        decreases n - i,
    {
        if run_starts(seq, i) {
            count += 1;
        }
        if pair_run_starts(seq, i) {
            count += 1;
        }
        if triplet_repeats(seq, i) {
            count += 1;
        }
        i += 1;
    }
    count
}


/// The metrics of one primer sequence.
#[derive(Clone, Copy, Debug, PartialEq, Eq, Structural)]
pub struct PrimerMetrics {
    /// Melting temperature, in tenths of a degree Celsius.
    pub melting_temp: i128,
    /// G and C bases, per mille of the length.
    pub gc_portion: u32,
    /// G and C bases among the last five.
    pub gc_3p_count: usize,
    /// 3' bases that pair with the strand's own 3' end folded back.
    pub self_end_dimer: usize,
    /// Single- and two-base runs more than four long, and repeated triplets.
    pub repeats: u128,
    pub tm_score: u32,
    pub gc_score: u32,
    pub gc_3p_score: u32,
    pub dimer_score: u32,
    pub repeats_score: u32,
    /// The overall score, from the category scores.
    pub quality_score: u32,
}

/// How a score is shown: good above 800, marginal above 500, bad at 500 and below.
#[derive(Clone, Copy, Debug, PartialEq, Eq, Structural)]
pub enum ScoreBand {
    Good,
    Marginal,
    Bad,
}

/// The distance between two integers.
pub open spec fn abs_diff(a: int, b: int) -> int {
    if a >= b {
        a - b
    } else {
        b - a
    }
}

/// The melting-temperature score: 1000 at the ideal, 10 less for each tenth of a degree
/// away from it, and 0 from ten degrees away.
pub open spec fn tm_score_of(tm: int) -> int {
    let d = abs_diff(tm, TM_IDEAL as int);
    if d >= 100 {
        0
    } else {
        1000 - 10 * d
    }
}

/// The GC score: 1000 from 400 to 600 per mille, 4 less for each per mille outside that
/// band, and 0 from 250 per mille outside it.
pub open spec fn gc_score_of(pm: int) -> int {
    let d = if pm < 400 {
        400 - pm
    } else if pm > 600 {
        pm - 600
    } else {
        0
    };
    if d >= 250 {
        0
    } else {
        1000 - 4 * d
    }
}

/// The 3' stability score: 1000 for two or three G and C, 500 for one or four, else 0.
pub open spec fn gc_3p_score_of(c: int) -> int {
    if c == 2 || c == 3 {
        1000
    } else if c == 1 || c == 4 {
        500
    } else {
        0
    }
}

/// The dimer score: 1000 with no pairing base, 125 less for each.
pub open spec fn dimer_score_of(d: int) -> int {
    if d >= 8 {
        0
    } else {
        1000 - 125 * d
    }
}

/// The repeats score: 1000 with no repeat, 200 less for each, and 0 from five.
pub open spec fn repeats_score_of(r: int) -> int {
    if r >= 5 {
        0
    } else {
        1000 - 200 * r
    }
}

/// The quality score: the weighted mean of the category scores, melting temperature
/// weighing 3, GC content, 3' stability and dimers 2 each, and repeats 1; rounded down.
pub open spec fn quality_of(tm: int, gc: int, gc_3p: int, dimer: int, repeats: int) -> int {
    (3 * tm + 2 * gc + 2 * gc_3p + 2 * dimer + repeats) / 10
}

/// The band a score is shown in.
pub open spec fn band_of(score: int) -> ScoreBand {
    if score > 800 {
        ScoreBand::Good
    } else if score > 500 {
        ScoreBand::Marginal
    } else {
        ScoreBand::Bad
    }
}

/// Whether `m` holds the metrics of the sequence `s` with melting temperature `tm`.
pub open spec fn is_metrics_of(m: PrimerMetrics, s: Seq<Nucleotide>, tm: int) -> bool {
    &&& m.melting_temp == tm
    &&& m.gc_portion == gc_per_mille(s)
    &&& m.gc_3p_count == gc_3p_count_of(s)
    &&& m.self_end_dimer == self_end_dimer_of(s)
    &&& m.repeats == repeats_of(s)
    &&& m.tm_score == tm_score_of(tm)
    &&& m.gc_score == gc_score_of(gc_per_mille(s))
    &&& m.gc_3p_score == gc_3p_score_of(gc_3p_count_of(s) as int)
    &&& m.dimer_score == dimer_score_of(self_end_dimer_of(s) as int)
    &&& m.repeats_score == repeats_score_of(repeats_of(s) as int)
    &&& m.quality_score == quality_of(
        m.tm_score as int,
        m.gc_score as int,
        m.gc_3p_score as int,
        m.dimer_score as int,
        m.repeats_score as int,
    )
}

/// The melting-temperature score of `tm`, in tenths of a degree.
pub fn tm_score(tm: i128) -> (r: u32)
    ensures
        r == tm_score_of(tm as int),
        r <= 1000,
{
    let d: i128 = if tm >= TM_IDEAL {
        if tm - TM_IDEAL >= 100 {
            return 0;
        }
        tm - TM_IDEAL
    } else {
        if tm <= TM_IDEAL - 100 {
            return 0;
        }
        TM_IDEAL - tm
    };
    (1000 - 10 * d) as u32
}

/// The GC score of a GC portion given per mille.
pub fn gc_score(pm: u32) -> (r: u32)
    ensures
        r == gc_score_of(pm as int),
        r <= 1000,
{
    let d: u32 = if pm < 400 {
        400 - pm
    } else if pm > 600 {
        pm - 600
    } else {
        0
    };
    if d >= 250 {
        0
    } else {
        1000 - 4 * d
    }
}

/// The 3' stability score of a count of 3' G and C bases.
pub fn gc_3p_score(c: usize) -> (r: u32)
    ensures
        r == gc_3p_score_of(c as int),
        r <= 1000,
{
    if c == 2 || c == 3 {
        1000
    } else if c == 1 || c == 4 {
        500
    } else {
        0
    }
}

/// The dimer score of a self-end dimer count.
pub fn dimer_score(d: usize) -> (r: u32)
    ensures
        r == dimer_score_of(d as int),
        r <= 1000,
{
    if d >= 8 {
        0
    } else {
        1000 - 125 * (d as u32)
    }
}

/// The repeats score of a repeat count.
pub fn repeats_score(n: u128) -> (r: u32)
    ensures
        r == repeats_score_of(n as int),
        r <= 1000,
{
    if n >= 5 {
        0
    } else {
        1000 - 200 * (n as u32)
    }
}

/// The quality score of five category scores.
pub fn quality_score(tm: u32, gc: u32, gc_3p: u32, dimer: u32, repeats: u32) -> (r: u32)
    requires
        tm <= 1000,
        gc <= 1000,
        gc_3p <= 1000,
        dimer <= 1000,
        repeats <= 1000,
    ensures
        r == quality_of(tm as int, gc as int, gc_3p as int, dimer as int, repeats as int),
        r <= 1000,
{
    (3 * tm + 2 * gc + 2 * gc_3p + 2 * dimer + repeats) / 10
}

/// The band a score is shown in: good above 800, marginal above 500, else bad.
pub fn score_band(score: u32) -> (r: ScoreBand)
    ensures
        r == band_of(score as int),
{
    if score > 800 {
        ScoreBand::Good
    } else if score > 500 {
        ScoreBand::Marginal
    } else {
        ScoreBand::Bad
    }
}

/// The metrics of `seq` under the reaction conditions `params`; `None` for an empty sequence.
pub fn calc_metrics(seq: &[Nucleotide], params: &TmParams) -> (r: Option<PrimerMetrics>)
    ensures
        r is None <==> seq@.len() == 0,
        r matches Some(m) ==> is_metrics_of(m, seq@, melting_temp_of(seq@, *params)),
{
    let n = seq.len();
    if n == 0 {
        return None;
    }
    let melting_temp = calc_tm(seq, params);
    let gc = count_gc(seq, 0, n);
    assert(seq@.subrange(0, n as int) =~= seq@);
    proof {
        assert((gc as int * 1000) / (n as int) <= 1000) by (nonlinear_arith)
            requires
                gc <= n,
                n > 0,
        {
            vstd::arithmetic::div_mod::lemma_div_is_ordered(
                gc as int * 1000,
                n as int * 1000,
                n as int,
            );
            vstd::arithmetic::div_mod::lemma_div_by_multiple(1000, n as int);
        }
    }
    let gc_portion = ((gc as u128) * 1000 / (n as u128)) as u32;
    let w = if n < GC_3P_WINDOW {
        n
    } else {
        GC_3P_WINDOW
    };
    let gc_3p_count = count_gc(seq, n - w, n);
    let self_end_dimer = self_end_dimer(seq);
    let repeats = count_repeats(seq);
    let tm_s = tm_score(melting_temp);
    let gc_s = gc_score(gc_portion);
    let gc_3p_s = gc_3p_score(gc_3p_count);
    let dimer_s = dimer_score(self_end_dimer);
    let repeats_s = repeats_score(repeats);
    let quality = quality_score(tm_s, gc_s, gc_3p_s, dimer_s, repeats_s);
    Some(
        PrimerMetrics {
            melting_temp,
            gc_portion,
            gc_3p_count,
            self_end_dimer,
            repeats,
            tm_score: tm_s,
            gc_score: gc_s,
            gc_3p_score: gc_3p_s,
            dimer_score: dimer_s,
            repeats_score: repeats_s,
            quality_score: quality,
        },
    )
}

/// For one sequence, a melting temperature no farther from the ideal scores no lower, in
/// its own category and in the overall quality score.
pub proof fn lemma_tm_score_monotone(
    s: Seq<Nucleotide>,
    m1: PrimerMetrics,
    tm1: int,
    m2: PrimerMetrics,
    tm2: int,
)
    requires
        is_metrics_of(m1, s, tm1),
        is_metrics_of(m2, s, tm2),
        abs_diff(tm1, TM_IDEAL as int) <= abs_diff(tm2, TM_IDEAL as int),
    ensures
        m1.tm_score >= m2.tm_score,
        m1.quality_score >= m2.quality_score,
{
    let rest = 2 * m1.gc_score + 2 * m1.gc_3p_score + 2 * m1.dimer_score + m1.repeats_score;
    vstd::arithmetic::div_mod::lemma_div_is_ordered(
        3 * m2.tm_score + rest,
        3 * m1.tm_score + rest,
        10,
    );
}

} // verus!
