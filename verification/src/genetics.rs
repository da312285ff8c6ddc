pub mod chromosome;
pub mod individual;
pub mod crossover;
pub mod mutation;
pub mod selection;
pub mod statistics;
pub mod algorithm;
