//! The kinds of operation, one module for each.

pub mod payment;
