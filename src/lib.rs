//! Adds one aggregate boolean option to a command-line record declaration:
//! every boolean option whose name starts with `clowntown` defaults to true
//! whenever the aggregate option is set.
//!
//! The declaration is described by the plain data types of [`model`]; the
//! transformation is [`clowncopterize`].

pub mod config;
pub mod laws;
pub mod model;
pub mod text;
pub mod transform;

pub use config::{Clowncopterize, ConfigError, ConfigToken};
pub use model::{Directive, DirectiveArg, DirectiveBody, Field, FieldType, Record, RecordFields};
pub use transform::{clowncopterize, is_eligible, TransformError};
