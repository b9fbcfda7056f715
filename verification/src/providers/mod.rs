pub mod openrouter;
pub mod redact;
pub mod traits;
pub mod wire;
