//! Transaction-review-and-signing core for a Kadena hardware wallet.
//!
//! The library consumes an untrusted, chunked byte stream holding a
//! JSON-encoded transaction command (or a raw hash for blind signing),
//! parses it incrementally with resumable state machines, decides exactly
//! which facts must be shown to the device holder, aggregates per-signer
//! capability coverage into a transaction-level verdict, and assembles the
//! final signed output.  Device-only collaborators (the screen, the key
//! service, the signing primitive) are reached through events: the library
//! records the prompts it would show and states requests for key material,
//! and the surrounding program answers them.

pub mod base;
pub mod coverage;
pub mod token;
pub mod anyval;
pub mod argbuf;
pub mod capability;
pub mod clist;
pub mod signer;
pub mod cmd;
pub mod digest;
pub mod flow;
pub mod blind;
pub mod address;
pub mod maketx;
pub mod dispatch;
