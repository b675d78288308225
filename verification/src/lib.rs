//! Webhook signature validation for the LINE Messaging API.
//!
//! The one primitive here is [`signature::validate_signature`]: it decodes a
//! claimed signature from standard base64, computes HMAC-SHA256 of the request
//! body under the channel secret, and compares the two in constant time.

pub mod signature;
