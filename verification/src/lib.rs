//! Core types and decision logic for a hydrogenic-orbital sampling engine:
//! quantum-number validation, query-mode parsing, integer special functions,
//! element lookup, and the sampler's orbital-selection and sample-count
//! bookkeeping.

pub mod elements;
pub mod modes;
pub mod physics;
pub mod request;
pub mod selection;
pub mod text;
