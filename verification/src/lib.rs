//! Core of an instruction-driven file rewriting tool.
//!
//! A natural-language instruction is applied to a set of text files with the
//! help of an external completion service: for each file a fixed few-shot
//! conversation is built around the instruction and the file's current
//! content, the service's reply is parsed for a delimited replacement, the
//! replacement is written to disk, and an optional external validation
//! command decides whether to accept it, retry, or roll the file back to its
//! original content.
//!
//! This crate holds the verified core: prompt construction ([`prompt`]),
//! reply parsing ([`extract`]), the per-file attempt/validate/rollback state
//! machine ([`session`]), and batch bookkeeping ([`batch`]). All I/O — the
//! completion endpoint, the filesystem, the validation subprocess — is left
//! to the caller, who drives a [`session::Session`] with the events those
//! calls produce.

pub mod batch;
pub mod extract;
pub mod prompt;
pub mod session;
pub mod text;
