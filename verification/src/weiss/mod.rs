//! Protocol specific to Weiss Engineering models.
//!
//! The module includes structure, enumeration, and trait and its implementation for protocol
//! defined by Weiss Engineering.

pub mod avc;
pub mod normal;
