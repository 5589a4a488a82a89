//! A directory of tenants kept as labelled resources of a cluster control plane:
//! the domain model, the label schema, the decisions around each control-plane
//! call, an in-memory control plane, and the laws that tie them together.

pub mod directory;
pub mod labels;
pub mod laws;
pub mod model;
pub mod repository;

pub use directory::MemoryRepository;
pub use labels::{Label, Resource};
pub use model::{User, VmsVersion};
pub use repository::{DeleteReply, KubeError, UserError};
