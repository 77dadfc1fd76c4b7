//! Client library for running SQL statements against Snowflake over its REST API.
//!
//! The modules hold the verified decisions of the client: token lifecycle,
//! request composition, response dispatch, statement classification, staged-file
//! bucketing and keypair JWT issuance. Network and file I/O live with the caller.
pub mod api;
pub mod connection;
pub mod error;
pub mod jwt;
pub mod migration;
pub mod put;
pub mod query;
pub mod requests;
pub mod responses;
pub mod session;
pub mod upload_files;
