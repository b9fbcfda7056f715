//! What the agent asks of a model, what it makes of the answers, and what it tells
//! those who watch it.
pub mod agent;
pub mod codec;
pub mod json;
pub mod multimodal;
pub mod observability;
pub mod outline;
pub mod providers;
pub mod text;
pub mod tools;
