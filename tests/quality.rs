use primer_design::metrics::{
    calc_metrics, calc_tm, dimer_score, gc_3p_score, gc_score, quality_score, repeats_score,
    score_band, tm_score, ScoreBand, TmParams, TM_IDEAL,
};
use primer_design::util::seq_from_str;

fn params() -> TmParams {
    TmParams { conc_entropy: -32964, salt_entropy_per_pair: -1102 }
}

#[test]
fn metrics_of_a_typical_primer() {
    let s = seq_from_str("AGCGGATAACAATTTCACACAGGA");
    let m = calc_metrics(&s, &params()).unwrap();
    assert_eq!(m.melting_temp, 566);
    assert_eq!(m.gc_portion, 416);
    assert_eq!(m.gc_3p_count, 3);
    assert_eq!(m.self_end_dimer, 2);
    assert_eq!(m.repeats, 4);
    assert_eq!(m.tm_score, 710);
    assert_eq!(m.gc_score, 1000);
    assert_eq!(m.gc_3p_score, 1000);
    assert_eq!(m.dimer_score, 750);
    assert_eq!(m.repeats_score, 200);
    assert_eq!(m.quality_score, 783);
}

#[test]
fn metrics_are_deterministic() {
    let s = seq_from_str("ATGCATGCATGCATGCATGC");
    assert_eq!(calc_metrics(&s, &params()), calc_metrics(&s, &params()));
    let m = calc_metrics(&s, &params()).unwrap();
    assert_eq!(m.melting_temp, 576);
    assert_eq!(m.repeats, 14);
    assert_eq!(m.quality_score, 843);
}

#[test]
fn no_metrics_for_empty_sequence() {
    assert!(calc_metrics(&[], &params()).is_none());
    assert_eq!(calc_tm(&[], &params()), 0);
}

#[test]
fn single_base_has_no_duplex() {
    let m = calc_metrics(&seq_from_str("A"), &params()).unwrap();
    assert_eq!(m.melting_temp, 0);
    assert_eq!(m.gc_3p_count, 0);
    assert_eq!(m.quality_score, 300);
}

#[test]
fn melting_temp_depends_on_conditions() {
    let s = seq_from_str("AGCGGATAACAATTTCACACAGGA");
    let low_salt = TmParams { conc_entropy: -32964, salt_entropy_per_pair: -2000 };
    assert!(calc_tm(&s, &low_salt) < calc_tm(&s, &params()));
    assert_eq!(calc_tm(&seq_from_str("GAATTC"), &params()), -175);
}

#[test]
fn runs_and_triplets_count_as_repeats() {
    let m = calc_metrics(&seq_from_str("AAAAAAAAAA"), &params()).unwrap();
    assert_eq!(m.repeats, 8);
    assert_eq!(m.gc_portion, 0);
    let m = calc_metrics(&seq_from_str("ATATATATATAT"), &params()).unwrap();
    assert_eq!(m.repeats, 10);
    assert_eq!(m.self_end_dimer, 8);
    assert_eq!(m.quality_score, 0);
}

#[test]
fn self_complementary_end_counts_as_dimer() {
    let m = calc_metrics(&seq_from_str("GAATTC"), &params()).unwrap();
    assert_eq!(m.self_end_dimer, 6);
    assert_eq!(m.gc_3p_count, 1);
    assert_eq!(m.gc_portion, 333);
    assert_eq!(m.quality_score, 396);
}

#[test]
fn category_scores() {
    assert_eq!(tm_score(TM_IDEAL), 1000);
    assert_eq!(tm_score(600), 950);
    assert_eq!(tm_score(694), 10);
    assert_eq!(tm_score(495), 0);
    assert_eq!(tm_score(-5000), 0);
    assert_eq!(gc_score(500), 1000);
    assert_eq!(gc_score(399), 996);
    assert_eq!(gc_score(601), 996);
    assert_eq!(gc_score(150), 0);
    assert_eq!(gc_3p_score(2), 1000);
    assert_eq!(gc_3p_score(4), 500);
    assert_eq!(gc_3p_score(5), 0);
    assert_eq!(dimer_score(1), 875);
    assert_eq!(dimer_score(8), 0);
    assert_eq!(repeats_score(2), 600);
    assert_eq!(repeats_score(9), 0);
    assert_eq!(quality_score(1000, 1000, 1000, 1000, 1000), 1000);
    assert_eq!(quality_score(710, 1000, 1000, 750, 200), 783);
}

#[test]
fn closer_melting_temp_scores_no_lower() {
    let pairs = [(595, 600), (590, 580), (600, 610), (560, 650), (700, 480)];
    for (closer, farther) in pairs {
        assert!(tm_score(closer) >= tm_score(farther));
        let q1 = quality_score(tm_score(closer), 800, 500, 1000, 600);
        let q2 = quality_score(tm_score(farther), 800, 500, 1000, 600);
        assert!(q1 >= q2);
    }
}

#[test]
fn score_bands() {
    assert_eq!(score_band(801), ScoreBand::Good);
    assert_eq!(score_band(800), ScoreBand::Marginal);
    assert_eq!(score_band(501), ScoreBand::Marginal);
    assert_eq!(score_band(500), ScoreBand::Bad);
    assert_eq!(score_band(0), ScoreBand::Bad);
}
