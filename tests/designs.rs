use primer_design::design::{
    amplification_records, design_amplification_primers, design_slic_fc_primers, slic_records,
    DEFAULT_TRIM_AMT,
};
use primer_design::metrics::TmParams;
use primer_design::primer::TuneSetting;
use primer_design::sequence::Nucleotide;
use primer_design::util::{make_seq_str, seq_complement, seq_from_str};

fn params() -> TmParams {
    TmParams { conc_entropy: -32964, salt_entropy_per_pair: -1102 }
}

fn pattern(len: usize, unit: &str) -> Vec<Nucleotide> {
    let unit = seq_from_str(unit);
    (0..len).map(|i| unit[i % unit.len()]).collect()
}

#[test]
fn amplification_scenario() {
    let target = seq_from_str("ATGCATGCATGCATGCATGCATGCATGCATGC");
    assert_eq!(target.len(), 32);
    let records = amplification_records(&target, &params()).unwrap();
    assert_eq!(records.len(), 2);
    let fwd = &records[0];
    let rev = &records[1];
    assert_eq!(fwd.sequence_input, "ATGCATGCATGCATGCATGCATGCATGCATGC");
    assert_eq!(fwd.tunable_5p, TuneSetting::Disabled);
    assert_eq!(fwd.tunable_3p, TuneSetting::Enabled(12));
    assert_eq!(fwd.primer.sequence, target[..20].to_vec());
    assert_eq!(fwd.seq_removed_3p, "ATGCATGCATGC");
    assert_eq!(rev.sequence_input, make_seq_str(&seq_complement(&target)));
    assert_eq!(rev.sequence_input, "GCATGCATGCATGCATGCATGCATGCATGCAT");
    assert_eq!(rev.tunable_5p, TuneSetting::Disabled);
    assert_eq!(rev.tunable_3p, TuneSetting::Enabled(DEFAULT_TRIM_AMT));
    assert_eq!(rev.primer.sequence.len(), 20);
    assert!(fwd.metrics.is_some());
    assert!(rev.metrics.is_some());
    assert_eq!(fwd.description, "Amplification Fwd");
    assert_eq!(rev.description, "Amplification Rev");
}

#[test]
fn amplification_of_longer_target_takes_the_ends() {
    let mut target = pattern(40, "AAC");
    target.extend(seq_from_str("GGGGTTTT"));
    let p = design_amplification_primers(&target).unwrap();
    assert_eq!(p.fwd.sequence, target[..32].to_vec());
    assert_eq!(p.rev.sequence, seq_complement(&target[16..]));
}

#[test]
fn amplification_rejects_short_target() {
    let target = pattern(31, "ATGC");
    assert!(design_amplification_primers(&target).is_none());
    assert!(amplification_records(&target, &params()).is_none());
    assert!(amplification_records(&[], &params()).is_none());
}

#[test]
fn slic_scenario() {
    let vector = pattern(50, "ACGGT");
    let insert = pattern(20, "TTGCA");
    let records = slic_records(&vector, &insert, 25, &params()).unwrap();
    assert_eq!(records.len(), 4);
    let on = TuneSetting::Enabled(DEFAULT_TRIM_AMT);
    assert_eq!(records[0].tunable_5p, on);
    assert_eq!(records[0].tunable_3p, on);
    assert_eq!(records[1].tunable_5p, on);
    assert_eq!(records[1].tunable_3p, on);
    assert_eq!(records[2].tunable_5p, TuneSetting::Disabled);
    assert_eq!(records[2].tunable_3p, on);
    assert_eq!(records[3].tunable_5p, on);
    assert_eq!(records[3].tunable_3p, TuneSetting::Disabled);
    for r in &records {
        assert!(r.metrics.is_some());
    }
    assert_eq!(records[0].description, "SLIC Insert Fwd");
    assert_eq!(records[3].description, "SLIC Vector Rev");
}

#[test]
fn slic_primer_sequences() {
    let vector = pattern(50, "ACGGT");
    let insert = pattern(20, "TTGCA");
    let p = design_slic_fc_primers(&vector, &insert, 25).unwrap();
    let mut insert_fwd = vector[..25].to_vec();
    insert_fwd.extend_from_slice(&insert);
    assert_eq!(p.insert_fwd.sequence, insert_fwd);
    let mut rev_region = insert.clone();
    rev_region.extend_from_slice(&vector[25..50]);
    assert_eq!(p.insert_rev.sequence, seq_complement(&rev_region));
    assert_eq!(p.vector_fwd.sequence, vector[25..50].to_vec());
    assert_eq!(p.vector_rev.sequence, seq_complement(&vector[..25]));
}

#[test]
fn slic_takes_at_most_untrimmed_length() {
    let vector = pattern(100, "ACGGT");
    let insert = pattern(40, "TTGCA");
    let p = design_slic_fc_primers(&vector, &insert, 50).unwrap();
    assert_eq!(p.insert_fwd.sequence.len(), 64);
    assert_eq!(p.insert_fwd.sequence[..32].to_vec(), vector[18..50].to_vec());
    assert_eq!(p.vector_fwd.sequence, vector[50..82].to_vec());
    assert_eq!(p.vector_rev.sequence, seq_complement(&vector[18..50]));
    assert_eq!(p.insert_rev.sequence.len(), 64);
}

#[test]
fn slic_rejects_bad_inputs() {
    let vector = pattern(50, "ACGGT");
    let insert = pattern(20, "TTGCA");
    assert!(design_slic_fc_primers(&vector, &insert, 0).is_none());
    assert!(design_slic_fc_primers(&vector, &insert, 50).is_none());
    assert!(design_slic_fc_primers(&vector, &insert, 51).is_none());
    assert!(design_slic_fc_primers(&vector, &[], 25).is_none());
    assert!(design_slic_fc_primers(&[], &insert, 0).is_none());
    assert!(slic_records(&vector, &[], 25, &params()).is_none());
    assert!(design_slic_fc_primers(&vector, &insert, 49).is_some());
}
