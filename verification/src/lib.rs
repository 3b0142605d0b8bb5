//! A verified core for a SQL Server / Fabric database adapter.

pub mod text;
pub mod uri;
pub mod sorted_map;
pub mod adapter_config;
pub mod auth;
pub mod database;
pub mod profile;
pub mod prompt;
pub mod sql;
pub mod relation;
pub mod batch;
pub mod catalog;
pub mod columns;
pub mod metadata;
