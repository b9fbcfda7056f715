pub mod llm_documents;
pub mod otel;
pub mod signals;
pub mod telemetry;
pub mod traits;
