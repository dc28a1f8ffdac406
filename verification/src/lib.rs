//! Verified core of the membership registry backend: the decisions that the
//! services, repositories and HTTP middleware take, separated from the
//! database, identity-provider and e-mail I/O that surrounds them.
pub mod access;
pub mod accounts;
pub mod application;
pub mod audit;
pub mod config;
pub mod error;
pub mod identity;
pub mod idp_requests;
pub mod jwt;
pub mod member;
pub mod model;
pub mod notification;
pub mod ory;
pub mod provisioning;
pub mod query;
pub mod repository;
pub mod role_membership;
pub mod text;
