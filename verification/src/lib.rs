//! Persistence core for a hierarchical planning domain.

pub mod arena;
pub mod bind;
pub mod board;
pub mod contract;
pub mod custom_types;
pub mod error;
pub mod group;
pub mod priority;
pub mod repo;
pub mod schema;
pub mod state;
pub mod task;

pub use board::Board;
pub use contract::ModelQueryBuilder;
pub use group::Group;
pub use priority::Priority;
pub use state::State;
pub use task::DurationInput;
pub use task::Task;
