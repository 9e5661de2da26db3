//! Chat models that the workflow asks.
pub mod gm_model;
