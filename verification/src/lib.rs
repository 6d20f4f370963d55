//! A verified session and authorization layer: it authenticates
//! callers (bearer token, session cookie, or Basic credentials),
//! authorizes them against a role's permission set, enforces
//! single-use expiring action tokens for account verification and
//! password reset, and throttles request volume per route and client
//! with a fixed-window counter.
//!
//! Cryptographic signing, base64, UUID parsing and randomness come
//! from outside crates behind small trusted wrappers; everything the
//! layer decides — extraction, validation, expiry, the token state
//! machine, authorization, and rate limiting — is specified and
//! verified, over an in-memory implementation of the user,
//! role and counter stores. Time is an explicit argument everywhere,
//! so every decision is a function of its inputs.

pub mod action_token;
pub mod basic_auth;
pub mod dto;
pub mod error;
pub mod identity;
pub mod jwt;
pub mod lifecycle;
pub mod permission;
pub mod randutil;
pub mod rate_limiter;
pub mod role;
pub mod scan;
pub mod store;
pub mod strfmt;
