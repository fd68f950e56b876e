//! Organizes astrophotography capture folders into a canonical layout.
//!
//! The crate infers each capture folder's calibration role (Light, Dark,
//! Flat or Bias) from the names of the files it holds, lets the operator
//! review and correct the inference, and plans the copy-and-cleanup
//! transaction that moves the classified folders into a destination tree.
//! All terminal and filesystem interaction is left to the caller, which
//! drives the state machines defined here with plain values.

pub mod error;
pub mod input;
pub mod role;
pub mod classify;
pub mod scan;
pub mod correct;
pub mod reorganize;
