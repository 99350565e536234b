//! Matching installed software against two vulnerability feeds: the decisions of the
//! scan, verified. Network and console work is left to the caller, which performs the
//! actions this library asks for and hands back what happened.

pub mod ecosystem;
pub mod finding;
pub mod host;
pub mod listing;
pub mod names;
pub mod nvd;
pub mod osv;
pub mod plan;
pub mod program;
pub mod session;
pub mod session_laws;
pub mod sweep;
pub mod text;
