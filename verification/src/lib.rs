//! A unified error taxonomy for an SDK that talks to external AI model
//! providers. Every failure the SDK can hit is collapsed into one closed
//! variant set, [`error::AiError`], with three pure queries on top of it:
//! a stable wire code, a retryability classification, and an advisory
//! retry delay.

pub mod duration;
pub mod error;
pub mod render;

pub use duration::Duration;
pub use error::AiError;
pub use error::Result;
