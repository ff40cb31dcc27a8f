//! Classifies files by their bytes.
//!
//! A file is an archive, a document or an image of a known format, or it is
//! encrypted, random, compressed, plain text or other binary data. The
//! verdict comes from a table of signatures, from a generic format sniffer,
//! from the entropy of the bytes and from a heuristic for text.
//!
//! Large files are scanned in chunks of bounded size. Only the first chunk
//! is kept for the classification; of the others the byte counts are added
//! to one histogram, and the histogram of the chunks is that of the whole
//! file.
//!
//! The library reads no file and does no floating-point arithmetic. Its
//! caller reads the chunks it asks for, computes the entropy from the
//! histogram, and hands the entropy in as the bit pattern of a double.

pub mod classify;
pub mod csv;
pub mod entropy;
pub mod error;
pub mod histogram;
pub mod labels;
pub mod laws;
pub mod layout;
pub mod record;
pub mod signature;
pub mod sniffer;
pub mod stream;
pub mod strings;
pub mod summary;
pub mod text;
pub mod threshold;
