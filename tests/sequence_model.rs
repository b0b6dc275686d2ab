use primer_design::sequence::Nucleotide::{A, C, G, T};
use primer_design::util::{make_seq_str, seq_complement, seq_from_str};

#[test]
fn text_round_trip() {
    let s = vec![A, T, C, G, G, A, C, T, T];
    let text = make_seq_str(&s);
    assert_eq!(text, "ATCGGACTT");
    assert_eq!(seq_from_str(&text), s);
}

#[test]
fn text_round_trip_empty() {
    let text = make_seq_str(&[]);
    assert_eq!(text, "");
    assert!(seq_from_str(&text).is_empty());
}

#[test]
fn complement_twice_is_identity() {
    let s = vec![G, A, T, T, A, C, A, G, C];
    assert_eq!(seq_complement(&seq_complement(&s)), s);
}

#[test]
fn complement_of_atcg() {
    assert_eq!(seq_complement(&[A, T, C, G]), vec![C, G, A, T]);
}

#[test]
fn complement_reverses_then_swaps() {
    assert_eq!(seq_complement(&[A, A, C]), vec![G, T, T]);
    assert!(seq_complement(&[]).is_empty());
}

#[test]
fn parse_drops_other_characters() {
    assert_eq!(seq_from_str("xyzATCG123"), vec![A, T, C, G]);
}

#[test]
fn parse_is_case_insensitive() {
    assert_eq!(seq_from_str("aTcG gc\n"), vec![A, T, C, G, G, C]);
}

#[test]
fn parse_without_bases_is_empty() {
    assert!(seq_from_str("").is_empty());
    assert!(seq_from_str("123 xyz-!").is_empty());
}

#[test]
fn nucleotide_letters() {
    assert_eq!(A.as_str(), "A");
    assert_eq!(T.as_str(), "T");
    assert_eq!(C.as_str(), "C");
    assert_eq!(G.as_str(), "G");
    assert_eq!(A.complement(), T);
    assert_eq!(C.complement(), G);
}
