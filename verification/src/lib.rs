//! A minimal in-process credential vault: a mapping from identifiers to
//! username/password records, every read and write gated by a single shared
//! passphrase. Purely in-memory and synchronous; persistence, hashing of
//! secrets and any transport are left to the caller.

pub mod pm;
