//! A type-keyed dependency-resolution container for Rocket.
//!
//! Producers are registered per type. An instance of a registered type is built on first
//! demand, with its own dependencies pulled from the same container, and kept for the
//! lifetime of the container. The `constructor` and `derive` modules hold the build-time
//! side: the rules that a designated constructor must meet and the text of the wiring
//! that is generated for it.

pub mod constructor;
pub mod derive;
pub mod error;
pub mod provider;
pub mod resolver;

pub use crate::constructor::is_self_type;
pub use crate::constructor::validate_arguments;
pub use crate::constructor::validate_block;
pub use crate::constructor::validate_function;
pub use crate::constructor::validate_output;
pub use crate::constructor::validate_sig;
pub use crate::constructor::Block;
pub use crate::constructor::ConstructorError;
pub use crate::constructor::FnArg;
pub use crate::constructor::ItemFn;
pub use crate::constructor::ReturnType;
pub use crate::constructor::Signature;
pub use crate::constructor::Type;
pub use crate::derive::generate_resolve_generated;
pub use crate::derive::resolve_constructor;
pub use crate::derive::DeriveInput;
pub use crate::error::ResolveError;
pub use crate::provider::ServiceProvider;
pub use crate::resolver::resolver_name;
pub use crate::resolver::Resolve;
pub use crate::resolver::ServiceResolver;
