//! A small library for composing pure computations ("tasks") over a shared,
//! type-indexed store, wiring their declared dependencies into a graph that is
//! validated while it is built and re-validated when a task is executed.

pub mod graph;
pub mod store;
pub mod task;

pub use graph::ExecutionGraph;
pub use graph::ExecutionGraphBuilder;
pub use graph::GraphError;
pub use store::DataBase;
pub use store::DbKey;
pub use store::InMemoryDb;
pub use task::Task;
pub use task::TaskInput;
pub use task::TaskOutput;
