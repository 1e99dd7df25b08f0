//! Codex Lux: the verified core of a Bible study application.

pub mod text_chirho;
pub mod models_chirho;
pub mod books_chirho;
pub mod reference_chirho;
pub mod morphology_chirho;
pub mod samples_chirho;
pub mod database_chirho;
pub mod streaks_chirho;
pub mod osis_chirho;
pub mod display_chirho;
pub mod bible_engine_chirho;
pub mod backend_chirho;
pub mod nav_chirho;
pub mod actions_chirho;
pub mod transfer_chirho;
pub mod laws_chirho;
pub mod laws_intent_chirho;
