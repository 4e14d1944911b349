//! Credential-issuance core: account creation and authentication workflows,
//! one-way password hashing, signed bearer-token encoding and decoding, and a
//! cause-chain-based error classifier that collapses internal failures into a
//! small, stable set of API-facing error kinds.

pub mod domain;
pub mod dto;
pub mod error;
pub mod hasher;
pub mod repository;
pub mod routes;
pub mod service;
pub mod token;
