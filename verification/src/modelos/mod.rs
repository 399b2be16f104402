//! The fiscal models, each with what it asks of a document beyond the base.

pub mod nfe;
