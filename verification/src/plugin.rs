//! Plugins: their kinds, the version of their interface, and the status codes they give.

pub mod abi;
pub mod contract;
