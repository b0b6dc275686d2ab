use primer_design::metrics::TmParams;
use primer_design::primer::{kept_range, Primer, PrimerData, PrimerDirection, TuneSetting};
use primer_design::sequence::Nucleotide::{A, C, G, T};
use primer_design::util::{seq_complement, seq_from_str};

fn params() -> TmParams {
    TmParams { conc_entropy: -32964, salt_entropy_per_pair: -1102 }
}

#[test]
fn matches_both_strands() {
    let target = seq_from_str("ACGTTGCAACGTAA");
    let primer = Primer { sequence: seq_from_str("ACG") };
    assert_eq!(
        primer.match_to_seq(&target),
        vec![
            (PrimerDirection::Forward, 0..3),
            (PrimerDirection::Forward, 8..11),
            (PrimerDirection::Reverse, 1..4),
            (PrimerDirection::Reverse, 9..12),
        ]
    );
}

#[test]
fn match_includes_known_sites() {
    let target = seq_from_str("TTTTGGCCATAGGCAAATTT");
    let p = seq_from_str("GGCCATAG");
    let primer = Primer { sequence: p.clone() };
    let found = primer.match_to_seq(&target);
    assert!(found.contains(&(PrimerDirection::Forward, 4..12)));
    // The reverse complement of "GCCTATGG" is "CCATAGGC", found at index 6.
    let q = Primer { sequence: seq_complement(&seq_from_str("CCATAGGC")) };
    assert!(q.match_to_seq(&target).contains(&(PrimerDirection::Reverse, 6..14)));
}

#[test]
fn palindrome_matches_on_both_strands() {
    let target = seq_from_str("AAGAATTCAA");
    let primer = Primer { sequence: seq_from_str("GAATTC") };
    assert_eq!(
        primer.match_to_seq(&target),
        vec![(PrimerDirection::Forward, 2..8), (PrimerDirection::Reverse, 2..8)]
    );
}

#[test]
fn no_matches_for_empty_or_absent_primer() {
    let target = seq_from_str("ACGTACGT");
    assert!(Primer { sequence: vec![] }.match_to_seq(&target).is_empty());
    assert!(Primer { sequence: seq_from_str("GGGG") }.match_to_seq(&target).is_empty());
    assert!(Primer { sequence: seq_from_str("ACGTACGTA") }.match_to_seq(&target).is_empty());
}

#[test]
fn toggle_switches_ends() {
    let mut t = TuneSetting::Disabled;
    t.toggle();
    assert_eq!(t, TuneSetting::Enabled(0));
    t = TuneSetting::Enabled(7);
    t.toggle();
    assert_eq!(t, TuneSetting::Disabled);
    assert_eq!(TuneSetting::Enabled(4).val(), 4);
    assert_eq!(TuneSetting::Disabled.val(), 0);
}

#[test]
fn increment_stops_before_consuming_sequence() {
    let len = 20;
    let k = 5;
    let mut t5 = TuneSetting::Enabled(0);
    let t3 = TuneSetting::Enabled(k);
    for _ in 0..100 {
        t5.increment(t3, len);
        assert!(t5.val() + k < len);
    }
    assert_eq!(t5, TuneSetting::Enabled(14));
}

#[test]
fn increment_and_decrement_edges() {
    let mut t = TuneSetting::Enabled(0);
    t.decrement();
    assert_eq!(t, TuneSetting::Enabled(0));
    let mut d = TuneSetting::Disabled;
    d.increment(TuneSetting::Disabled, 10);
    d.decrement();
    assert_eq!(d, TuneSetting::Disabled);
    let mut e = TuneSetting::Enabled(3);
    e.increment(TuneSetting::Enabled(40), 10);
    assert_eq!(e, TuneSetting::Enabled(3));
    e.decrement();
    assert_eq!(e, TuneSetting::Enabled(2));
}

#[test]
fn degenerate_trim_keeps_full_sequence() {
    let full = seq_from_str("ACGTTGCAAC");
    let len = full.len();
    let d = PrimerData::new(
        &full,
        "degenerate",
        TuneSetting::Enabled(len),
        TuneSetting::Enabled(len),
        &params(),
    );
    assert_eq!(d.primer.sequence, full);
    assert_eq!(d.seq_removed_5p, "");
    assert_eq!(d.seq_removed_3p, "");
    assert!(d.metrics.is_some());
    assert_eq!(kept_range(10, 10, 10), (0, 10));
    assert_eq!(kept_range(10, 4, 6), (0, 10));
    assert_eq!(kept_range(10, 4, 5), (4, 5));
}

#[test]
fn trimming_moves_bases_to_removed_ends() {
    let full = seq_from_str("AAAACCCCGGGGTTTT");
    let d = PrimerData::new(
        &full,
        "trimmed",
        TuneSetting::Enabled(3),
        TuneSetting::Enabled(2),
        &params(),
    );
    assert_eq!(d.sequence_input, "AAAACCCCGGGGTTTT");
    assert_eq!(d.primer.sequence, seq_from_str("ACCCCGGGGTT"));
    assert_eq!(d.seq_removed_5p, "AAA");
    assert_eq!(d.seq_removed_3p, "TT");
    assert_eq!(d.effective_seq(), seq_from_str("ACCCCGGGGTT"));
}

#[test]
fn disabling_an_end_restores_its_bases() {
    let full = seq_from_str("AAAACCCCGGGGTTTT");
    let mut d = PrimerData::new(
        &full,
        "toggled",
        TuneSetting::Enabled(3),
        TuneSetting::Enabled(2),
        &params(),
    );
    d.tunable_5p.toggle();
    d.run_calcs(&params());
    assert_eq!(d.primer.sequence, seq_from_str("AAAACCCCGGGGTT"));
    assert_eq!(d.seq_removed_5p, "");
    assert_eq!(d.description, "toggled");
}

#[test]
fn empty_record_has_no_metrics() {
    let mut d = PrimerData::default();
    d.run_calcs(&params());
    assert!(d.primer.sequence.is_empty());
    assert!(d.metrics.is_none());
    d.sequence_input = "gattaca".to_string();
    d.run_calcs(&params());
    assert_eq!(d.primer.sequence, vec![G, A, T, T, A, C, A]);
    assert!(d.metrics.is_some());
}

#[test]
fn sync_matches_uses_effective_sequence() {
    let full = seq_from_str("GGACGTT");
    let mut d = PrimerData::new(
        &full,
        "m",
        TuneSetting::Enabled(2),
        TuneSetting::Enabled(2),
        &params(),
    );
    let target = seq_from_str("TTACGAA");
    d.sync_matches(&target, &[]);
    assert_eq!(
        d.matches_amplification_seq,
        vec![(PrimerDirection::Forward, 2..5)]
    );
    assert!(d.matches_vector_with_insert.is_empty());
    assert_eq!(d.primer.sequence, vec![A, C, G]);
}
