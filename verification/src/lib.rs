//! Decide whether a large-language-model fits a machine's memory, pick the
//! execution path (GPU-resident, mixture-of-experts offload, CPU spill, or
//! CPU-only), grade the fit, and rank many such results deterministically.
//!
//! All memory quantities are integers in MiB, so every formula here is exact
//! fixed-point arithmetic; callers that measure in fractional gigabytes
//! convert at the boundary.

pub mod fit;
pub mod hardware;
pub mod models;
pub mod rank;
pub mod text;

pub use fit::FitLevel;
pub use fit::ModelFit;
pub use fit::Note;
pub use fit::RunMode;
pub use hardware::SystemSpecs;
pub use models::LlmModel;
pub use models::ModelDatabase;
pub use models::Quantization;
pub use rank::rank_models_by_fit;
pub use rank::run_fit;
