//! Query and fetch orchestration for a paginated raw-image catalog.

pub mod enums;
pub mod text;
pub mod instruments;
pub mod remotequery;
pub mod metadata;
pub mod psyche;
pub mod psychefetch;
