//! Synthesis of companion builder types for named-field records.
//!
//! A record is described structurally (`RecordDescription`); each field is
//! classified (`classify`), laid out as a builder slot (`derive`), and the
//! runtime behaviour of a synthesized builder is modelled by `RecordBuilder`.
pub mod model;
pub mod annotation;
pub mod classify;
pub mod plan;
pub mod builder;
pub mod command;
