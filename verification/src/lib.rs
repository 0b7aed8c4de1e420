//! Verified core of a token-distribution instruction: a total amount is
//! split so that the first recipient receives the residual share left after
//! giving each other recipient an equal, twice-truncated cut of 95% of the
//! total, and the transfers are ordered and all-or-nothing.
//!
//! The arithmetic and the per-recipient decisions live here and are verified;
//! the surrounding account plumbing and the cross-program transfer calls are
//! left to the embedding program.

pub mod disburse;
pub mod split;
