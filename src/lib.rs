//! Source-position tracking and result reconciliation for the policy
//! playground: parse errors and check outcomes are mapped back onto the
//! line/column ranges of the text that the user typed.

pub mod position;
pub mod editor;
pub mod reconcile;
pub mod biscuit;
pub mod assemble;
pub mod pipeline;
