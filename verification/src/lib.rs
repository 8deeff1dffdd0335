pub mod constants;
pub mod delivery;
pub mod error;
pub mod extractors;
pub mod hf;
pub mod models;
pub mod queries;
pub mod routes;
pub mod submission;
pub mod text;
pub mod voting;
