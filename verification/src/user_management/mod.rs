//! Signing users in by a code sent to their email address.

pub mod email_auth;
