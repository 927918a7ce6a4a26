//! Generic data modeling idioms, verified: closed two-variant sum types
//! (`Maybe`, `Outcome`), a cursor-style iteration protocol (`Sequence`), a
//! validated builder producing an immutable `Config`, and a state machine
//! with guarded transitions. Every public operation carries a contract that
//! pins down its result, and the stated laws are proved.

pub mod config;
pub mod errors;
pub mod machine;
pub mod processor;
pub mod sequence;
pub mod tree;
pub mod variant;
pub mod wrappers;

pub use config::Config;
pub use config::ConfigBuilder;
pub use errors::AppError;
pub use errors::convert_error;
pub use errors::safe_unwrap;
pub use machine::Resettable;
pub use machine::State;
pub use machine::StateMachine;
pub use processor::DataProcessor;
pub use processor::ProcessorConfig;
pub use sequence::RangeIterator;
pub use sequence::Sequence;
pub use tree::TreeNode;
pub use variant::Maybe;
pub use variant::Outcome;
pub use wrappers::Cloneable;
pub use wrappers::Container;
pub use wrappers::Pair;
pub use wrappers::RefCounted;
pub use wrappers::Serializable;
pub use wrappers::SmartBox;
pub use wrappers::ThreadSafe;
pub use wrappers::Wrapper;
pub use wrappers::make_container;
