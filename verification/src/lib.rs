//! Clipboard bridge library: the verified core of a command-line tool that
//! moves text and bitmap data between standard streams and the system
//! clipboard.
//!
//! The heart of the crate is the bitmap serializer: given the descriptor of a
//! native device bitmap (dimensions, planes, bit depth) together with its
//! palette and pixel bytes, it produces a self-contained bitmap file byte
//! stream (file header, info header, color table, pixel data) with exact
//! little-endian layout. Around it stand the color-depth classification, the
//! row-padding arithmetic, and the small text rules of the tool (trailing
//! newline trimming on input, newline appending on terminal output).

pub mod bytes;
pub mod serialize;
pub mod text;
pub mod depth;
pub mod layout;
