//! Policy layer for flattening a structured document tree into normalized
//! plaintext: per-tag and per-class handling rules, normalization switches
//! with named presets, a diagnostic checker for flag combinations, and the
//! transient accumulator state used while plaintext is being built.

pub mod dnm;
