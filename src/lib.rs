//! Status-bar sensors for Linux, centred on the AMD GPU `gpu_metrics` decoder.
//!
//! The decoder reads the versioned binary snapshot that the amdgpu driver exports:
//! a four-byte header, then a layout chosen by `(format_revision, content_revision)`.
//! Every parser, accessor and cache decision here carries a contract that Verus
//! checks. Reading files, mapping memory, the clock and floating-point ratios are
//! left to the program that uses the library.

pub mod bytes;
pub mod text;
pub mod words;
pub mod error;
pub mod metrics;
pub mod facade;
pub mod cache;
pub mod gpu;
pub mod output;
pub mod human;
pub mod config;
pub mod cpu;
pub mod memory;
pub mod battery;
