//! Event-provider core: canonical event envelopes, secret resolution with
//! metadata-only audit events, and channel adapters (webhook, email, SMS,
//! timer) that map external payloads into and out of the envelope format.

pub mod codec;
pub mod email;
pub mod error;
pub mod events;
pub mod json;
pub mod ops;
pub mod payload;
pub mod receipt;
pub mod secrets;
pub mod sms;
pub mod sys;
pub mod tenant;
pub mod tenant_secrets;
pub mod timer;
pub mod webhook;
