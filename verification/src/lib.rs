//! A typed, graph-structured knowledge model.
//!
//! Callers declare named kinds in a catalog; each kind lists the fields an
//! instance may carry and the primitive JSON type of each. Instances name
//! their kind and carry an open map of fields; validation checks the one
//! against the other. Instances and labeled relations between them are
//! assembled into a directed graph whose insertions can deduplicate: nodes
//! by display name, edges by their ordered pair of ends.

pub mod fields;
pub mod graph;
pub mod instance;
pub mod json;
pub mod kind;
pub mod mutation;
pub mod store;
pub mod text;
pub mod validate;

pub use fields::FieldMap;
pub use graph::{EdgeHandle, Graph, NodeHandle};
pub use instance::{Edge, NodeInstance};
pub use json::{JsonType, JsonValue};
pub use kind::{KindDefinition, KindRegistry, RegistryError};
pub use mutation::{EdgeMutation, NodeMutation, SchemaMutation};
pub use validate::{validate_instance, ValidationError};
