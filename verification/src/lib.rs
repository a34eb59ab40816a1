//! Streaming zstd compression with a verified handle lifecycle.
//!
//! A `ZstdWriter` owns one streaming zstd compressor. Callers open it at a
//! chosen compression level, feed it raw byte buffers, and close it exactly
//! once to obtain the finished compressed frame. The contracts track the
//! exact sequence of bytes fed, so that the frame handed back by `close` is
//! pinned to the concatenation of every buffer written, in call order.

pub mod codec;
pub mod writer;

pub use writer::ZstdWriter;
