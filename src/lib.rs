//! A minimal package registry: the publish pipeline, from the upload's wire
//! format to the catalog and the content store.
pub mod auth;
pub mod checksum;
pub mod cli;
pub mod configuration;
pub mod error;
pub mod index;
pub mod models;
pub mod pipeline;
pub mod publish;
pub mod resolve;
pub mod semver_req;
pub mod store;
pub mod wire;
