//! A batching aggregator: items arrive one at a time and leave in bounded,
//! ordered batches, either when a batch fills up or when the timer ticks.

pub mod accumulator;
pub mod model;
pub mod batcher;
pub mod laws;
