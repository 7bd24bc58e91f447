//! A FIX 4.2 session library.
//!
//! - `fields`: the tag dictionary and the value sets of enumerated fields.
//! - `checksum`: the modulo-256 checksum and a writer that keeps it while writing.
//! - `decode`: splitting a message into tag/value fields, length-prefixed data fields
//!   included, and reading the framing prefix `8=FIX.4.2|9=<n>|35=<c>|`.
//! - `encode`: building outbound messages with BodyLength and CheckSum.
//! - `resend`: rewriting stored messages for retransmission and planning a replay.
//! - `stream`: the header buffer of the framer and its resynchronization on `8=F`.
//! - `validate`: the checks an inbound message must pass.
//! - `inbound`: reading the session fields of an inbound message into a state-machine event.
//! - `session`: the session state machine.
//! - `outbound`: writing messages stamped with the current time, and replaying stored ones.
//! - `timers`: the heartbeat, test-request and logout deadlines.
//! - `laws`: properties that tie the encoder, the framer and the decoder together.

pub mod fields;
pub mod decode;
pub mod checksum;
pub mod error;
pub mod encode;
pub mod resend;
pub mod session;
pub mod mem;
pub mod validate;
pub mod inbound;
pub mod stream;
pub mod outbound;
pub mod laws;
pub mod timers;
