//! Safety and dispatch core for exposing natively-implemented objects inside
//! an embedded, dynamically-typed scripting runtime.
//!
//! The crate models the engine's value space directly, so that the three hard
//! parts of the binding layer are stated and proved as contracts:
//!
//! * runtime type identity: every exposed type gets an opaque tag, allocated
//!   once per (type key, engine) pair and compared by identity alone;
//! * dynamic borrow enforcement: each exposed instance sits in a cell that
//!   tracks shared and exclusive access at runtime and fails fast on
//!   conflict, with scoped views whose consumption guarantees release;
//! * declarative method and operator registration with last-wins semantics,
//!   dispatched through the engine's metatable protocol.
//!
//! Native method and operator bodies are opaque to this layer: the caller
//! hands every invocation a dispatcher closure that maps a callback
//! identifier and its marshalled arguments to a result.  The contracts here
//! pin down everything up to that call — which callback runs, under which
//! borrow of which instance, and that its result is passed through unchanged.

mod cell;
mod engine;
mod error;
mod meta;
mod registry;
mod userdata;
mod value;

pub use cell::BorrowState;
pub use cell::UserDataCell;
pub use cell::lemma_nested_borrow_conflict;
pub use cell::lemma_shared_roundtrip;
pub use engine::Engine;
pub use engine::Object;
pub use engine::cache_lookup;
pub use engine::lemma_distinct_keys_distinct_tags;
pub use engine::lemma_typed_as_unique;
pub use engine::pass_through;
pub use error::Error;
pub use meta::Dialect;
pub use meta::MetaMethod;
pub use meta::lemma_meta_names_injective;
pub use registry::CallbackKind;
pub use registry::KeyModel;
pub use registry::Metatable;
pub use registry::MethodKey;
pub use registry::RegModel;
pub use registry::Registration;
pub use registry::UserDataMethods;
pub use registry::UserDataRegistry;
pub use registry::key_matches;
pub use registry::lemma_resolve_push;
pub use registry::resolve;
pub use userdata::AnyUserData;
pub use userdata::ExclusiveView;
pub use userdata::SharedView;
pub use userdata::UserData;
pub use userdata::lemma_released_borrow_enables_exclusive;
pub use userdata::lemma_user_value_roundtrip;
pub use value::Value;
