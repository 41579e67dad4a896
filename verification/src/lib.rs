//! Client library for one HTTP SMS gateway: a fluent builder collects the
//! message body, sender, recipients and timing, a dispatcher turns that state
//! into the gateway's JSON wire payload with its request headers, and a
//! response interpreter maps the raw HTTP outcome to a typed result.

pub mod codec;
pub mod laws;
pub mod message;
pub mod response;
pub mod time;
pub mod wire;
