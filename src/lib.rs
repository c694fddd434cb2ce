pub mod backend;
pub mod config;
pub mod errors;
pub mod generator;
pub mod id;
pub mod layout;
pub mod memory_backend;
pub mod registry;

pub use backend::{InMemoryBackend, StateBackend};
pub use config::{Field, FieldKind, VeigoConfig};
pub use errors::VeigoIdError;
pub use generator::{VeigoIdGenerator, VeigoIdParts};
pub use id::VeigoId;
pub use memory_backend::MemoryState;
pub use registry::{configure, generate, get_global, GeneratorSlot};
