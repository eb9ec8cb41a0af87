//! The byte layout of the records in their fixed-capacity storage.
//!
//! A stored record is an 8-byte kind tag followed by its fields in
//! declaration order: identities as 32 raw bytes, integers little-endian,
//! a flag as one byte, a text as its byte length in 4 bytes followed by
//! its UTF-8 bytes, a list as its count in 4 bytes followed by its
//! entries. The rest of the reserved space is zero. Limits on the fields
//! are not the codec's business: it writes whatever fits the space and
//! reads whatever the bytes hold, never beyond them.
pub mod agent;
pub mod feedback;
pub mod fields;
pub mod reader;
pub mod registry;
pub mod writer;
