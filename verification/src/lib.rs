//! Verified decision logic for isolated test databases on MySQL.

pub mod cleanup;
pub mod clone;
pub mod clone_laws;
pub mod context;
pub mod context_laws;
pub mod digest;
pub mod migrate;
pub mod mysql;
pub mod once;
pub mod protocol;
pub mod protocol_laws;
pub mod refs;
pub mod refs_laws;
pub mod run;
pub mod run_laws;
pub mod sql;
pub mod sql_laws;
pub mod template;
pub mod testing;
pub mod text;
