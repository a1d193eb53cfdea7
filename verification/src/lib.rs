//! A composable request-processing pipeline: filters that inspect a request
//! context, extract typed values from it, and compose under sequencing,
//! alternation and mapping, together with the per-request extension store
//! through which earlier processing stages hand facts to later filters.

pub mod addr;
pub mod builtin;
pub mod context;
pub mod filter;
pub mod laws;
pub mod store;
