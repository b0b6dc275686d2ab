//! Nucleotides, sequences of them, and their textual form.

use vstd::prelude::*;

verus! {

/// One base of a DNA sequence.
#[derive(Clone, Copy, Debug, PartialEq, Eq, Structural, Hash)]
pub enum Nucleotide {
    A,
    T,
    C,
    G,
}

/// The letter a nucleotide is written as.
pub open spec fn nt_char(n: Nucleotide) -> char {
    match n {
        Nucleotide::A => 'A',
        Nucleotide::T => 'T',
        Nucleotide::C => 'C',
        Nucleotide::G => 'G',
    }
}

/// The nucleotide a character stands for, in either case; `None` for any other character.
pub open spec fn char_nt(c: char) -> Option<Nucleotide> {
    if c == 'a' || c == 'A' {
        Some(Nucleotide::A)
    } else if c == 't' || c == 'T' {
        Some(Nucleotide::T)
    } else if c == 'c' || c == 'C' {
        Some(Nucleotide::C)
    } else if c == 'g' || c == 'G' {
        Some(Nucleotide::G)
    } else {
        None
    }
}

/// The base that pairs with `n`: A with T, C with G.
pub open spec fn nt_complement(n: Nucleotide) -> Nucleotide {
    match n {
        Nucleotide::A => Nucleotide::T,
        Nucleotide::T => Nucleotide::A,
        Nucleotide::C => Nucleotide::G,
        Nucleotide::G => Nucleotide::C,
    }
}

/// Whether a base is G or C.
pub open spec fn is_gc(n: Nucleotide) -> bool {
    n == Nucleotide::G || n == Nucleotide::C
}

/// The text of a sequence: one upper-case letter per base.
pub open spec fn seq_text(s: Seq<Nucleotide>) -> Seq<char> {
    s.map_values(|n: Nucleotide| nt_char(n))
}

/// The sequence read from text: each character that names a base, in order; the rest skipped.
pub open spec fn parse_chars(cs: Seq<char>) -> Seq<Nucleotide>
    decreases cs.len(),
{
    if cs.len() == 0 {
        Seq::empty()
    } else {
        let rest = parse_chars(cs.drop_last());
        match char_nt(cs.last()) {
            Some(n) => rest.push(n),
            None => rest,
        }
    }
}

/// The reverse complement: the sequence read backwards, each base replaced by its partner.
pub open spec fn reverse_complement(s: Seq<Nucleotide>) -> Seq<Nucleotide> {
    Seq::new(s.len(), |i: int| nt_complement(s[s.len() - 1 - i]))
}

impl Nucleotide {
    /// The one-letter text of this nucleotide.
    pub fn as_str(&self) -> (r: &'static str)
        ensures
            r@ == seq![nt_char(*self)],
    {
        match self {
            Nucleotide::A => {
                proof {
                    reveal_strlit("A");
                }
                "A"
            },
            Nucleotide::T => {
                proof {
                    reveal_strlit("T");
                }
                "T"
            },
            Nucleotide::C => {
                proof {
                    reveal_strlit("C");
                }
                "C"
            },
            Nucleotide::G => {
                proof {
                    reveal_strlit("G");
                }
                "G"
            },
        }
    }

    /// The base that pairs with this one.
    pub fn complement(&self) -> (r: Nucleotide)
        ensures
            r == nt_complement(*self),
    {
        match self {
            Nucleotide::A => Nucleotide::T,
            Nucleotide::T => Nucleotide::A,
            Nucleotide::C => Nucleotide::G,
            Nucleotide::G => Nucleotide::C,
        }
    }

    /// The nucleotide a character names, in either case.
    pub fn from_char(c: char) -> (r: Option<Nucleotide>)
        ensures
            r == char_nt(c),
    {
        if c == 'a' || c == 'A' {
            Some(Nucleotide::A)
        } else if c == 't' || c == 'T' {
            Some(Nucleotide::T)
        } else if c == 'c' || c == 'C' {
            Some(Nucleotide::C)
        } else if c == 'g' || c == 'G' {
            Some(Nucleotide::G)
        } else {
            None
        }
    }
}

/// Reading back the text of a sequence gives the same sequence.
pub proof fn lemma_parse_text_round_trip(s: Seq<Nucleotide>)
    ensures
        parse_chars(seq_text(s)) == s,
    decreases s.len(),
{
    if s.len() > 0 {
        lemma_parse_text_round_trip(s.drop_last());
        assert(seq_text(s).drop_last() =~= seq_text(s.drop_last()));
        assert(s.drop_last().push(s.last()) =~= s);
    } else {
        assert(seq_text(s) =~= Seq::<char>::empty());
    }
}

/// Taking the reverse complement twice gives back the original sequence.
pub proof fn lemma_complement_involution(s: Seq<Nucleotide>)
    ensures
        reverse_complement(reverse_complement(s)) == s,
{
    let r = reverse_complement(s);
    assert forall|i: int| 0 <= i < s.len() implies #[trigger] reverse_complement(r)[i] == s[i] by {
        assert(r[s.len() - 1 - i] == nt_complement(s[i]));
    }
    assert(reverse_complement(r) =~= s);
}

} // verus!
