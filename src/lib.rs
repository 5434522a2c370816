pub mod aggregation;
pub mod data;
pub mod dependencies;
pub mod event;
pub mod execution;
pub mod ids;
pub mod indicies;
pub mod invalidation;
pub mod lifecycle;
pub mod store;
