pub mod cache;
pub mod pending;
pub mod record;
pub mod resolver;
pub mod sanitize;
pub mod sidecar;
pub mod text;
pub mod track;
