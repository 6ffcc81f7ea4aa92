//! Integer and decision logic of the optrs option-pricing library.

pub mod abi;
pub mod convergence;
pub mod engine;
pub mod error;
pub mod exercise;
pub mod last_error;
pub mod mc;
pub mod option;
pub mod rng;
pub mod tree;
