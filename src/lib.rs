//! Sequence analysis and PCR primer design.
//!
//! The crate holds the nucleotide sequence model, the primer quality metrics,
//! the binding-site matcher, the tunable-end trimming model and the two
//! primer design strategies (amplification and SLIC / FastCloning).

pub mod sequence;
pub mod util;
pub mod primer;
pub mod metrics;
pub mod design;
pub mod collection;
