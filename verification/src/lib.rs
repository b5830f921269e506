//! Planning and bookkeeping for a batch run that turns one model into several
//! quantized GGUF files and publishes them while later jobs are still running.
//!
//! The library decides; the program around it acts. It names the external
//! commands of every stage, orders them into a plan, walks that plan one
//! answered task at a time, and keeps the single-flight publication state.
pub mod cancel;
pub mod context;
pub mod coordinator;
pub mod narration;
pub mod paths;
pub mod pipeline;
pub mod plan;
pub mod quant;
pub mod runner;
pub mod stages;
pub mod step;
pub mod task;
pub mod text;
