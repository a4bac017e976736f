//! Uniformly distributed `u64` values inside an inclusive range, drawn from the
//! operating system's secure entropy source.
//!
//! The crate has one primitive, [`rand_u64`]. Everything it computes after the
//! entropy has arrived is deterministic and is stated over the spec functions
//! of [`reduction`].

pub mod draw;
pub mod entropy;
pub mod error;
pub mod lemmas;
pub mod reduction;

pub use draw::{rand_u64, rand_u64_with};
pub use entropy::ENTROPY_LEN;
pub use error::RandError;
pub use reduction::{fold_entropy, reduce};
