//! Analysis queries of a smart-contract language compiler: trait types and
//! recursive-trait diagnostics, symbol names of compiled functions, and the
//! semantics of effect providers.
pub mod diagnostics;
pub mod provider;
pub mod traits;
pub mod ty;
pub mod symbol;
