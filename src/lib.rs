//! Supervision of a locally spawned backend server: where its endpoint is,
//! where its runtime lives on disk, how it is started and how it is stopped.

pub mod bootstrap;
pub mod config;
pub mod error;
pub mod launch;
pub mod runtime;
pub mod text;
