//! Reusable numeric building blocks for online value-function learning:
//! an additive buffer algebra over dense and single-active-cell sparse
//! representations, an eligibility trace, a linear function approximator,
//! and a TD(lambda) predictor that updates weights from observed
//! transitions.  All scalars are exact fixed-point values so that every
//! update equation can be stated and proved precisely.

pub mod agents;
pub mod domain;
pub mod fixed;
pub mod parameter;
pub mod fa;
pub mod params;
pub mod prediction;
pub mod trace;
