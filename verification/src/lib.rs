//! Verified logic of the Focus Task desktop shell: text handling, backend
//! supervision decisions, credential bookkeeping and platform command plans.

pub mod text;
pub mod platform;
pub mod backend;
pub mod startup;
pub mod credentials;
pub mod store;
