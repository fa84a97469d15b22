//! One import for the common surface of the crate.

pub use crate::backends::memory::MemoryStorage;
pub use crate::backends::s3compat::Backend;
pub use crate::Error;
pub use crate::ObjectMetadata;
pub use crate::Storage;
