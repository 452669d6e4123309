pub mod embeddings;
pub mod nlp;
pub mod utils;
