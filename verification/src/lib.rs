//! Governance core of a custody platform: caller authorization, the catalog of
//! request operations, and the secondary indexes that make stored records
//! discoverable by related entity and time range.

pub mod access;
pub mod account_bank;
pub mod big_nat;
pub mod call_context;
pub mod identity;
pub mod index_repository;
pub mod indexes;
pub mod install_mode;
pub mod key_store;
pub mod mappers;
pub mod models;
pub mod repository;
pub mod request_operation;
pub mod text;
pub mod types;
pub mod user_group;
