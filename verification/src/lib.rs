//! Processor identification: decoding of raw identification-register words,
//! vendor resolution, and classification of (vendor, signature) pairs against
//! priority-ordered tables of known microarchitectures.
//!
//! The library itself never touches hardware: a caller fills a [`probe::Probe`]
//! with the words the identification instruction returned (or with a
//! synthesized equivalent) and every function here is a pure computation over
//! that record.

pub mod arm;
pub mod bounded;
pub mod brand;
pub mod cpu;
pub mod fns;
pub mod micro_arch;
pub mod ppc;
pub mod probe;
pub mod strutil;
pub mod topology;
