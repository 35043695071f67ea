//! Plans for running large language models on a device.
//!
//! The planners decide which operations a forward pass enqueues, on which
//! buffers and streams and in which order, and return them as data. Whoever
//! owns the device runs them. Configuration files, checkpoints and kernel
//! tables are taken as plain values in the same way.

pub mod admitted;
pub mod attention;
pub mod bytes;
pub mod config;
pub mod context;
pub mod gpu;
pub mod kernels;
pub mod meaning;
pub mod mistral;
pub mod model;
pub mod moe;
pub mod mtp_head;
pub mod nemotron;
pub mod num;
pub mod ops;
pub mod plan;
pub mod preflight;
pub mod quant_format;
pub mod readback;
pub mod ssm;
pub mod text;
