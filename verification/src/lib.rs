//! The rules of a small media-project system: a storage backend with
//! chunked transfers, a registry of projects, and a gateway that joins the
//! two.
//!
//! Nothing here reads a disk or a socket. Every operation takes what its
//! caller saw or received and says what is to be done or answered next, so
//! that each decision has a contract and a proof. The few things that come
//! from other crates stand in [`outside`], [`storage::paths`] and
//! [`storage::order`], each behind a function whose contract is taken on
//! trust.

pub mod fault;
pub mod gateway;
pub mod outside;
pub mod registry;
pub mod service;
pub mod storage;
pub mod text;
pub mod wire;
