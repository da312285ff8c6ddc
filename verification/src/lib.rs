//! A small neuroevolution workbench: a genetic algorithm over fixed-point
//! gene vectors, a feed-forward neural network whose parameters map onto
//! exactly such a vector, and the supporting pieces of the surrounding
//! projects (the snek game entities, a handful of builders and utilities).
//!
//! Real-valued quantities are represented in fixed point: one whole unit is
//! `UNIT` (a million) steps, so a gene of `500_000` stands for one half.

pub mod errors;
pub mod rng;

pub mod genetics;
pub mod network;
pub mod game;

pub mod meal;
pub mod datapoint;
pub mod dimensions;
pub mod resolution;
pub mod parse;
pub mod pixel;
pub mod primes;
pub mod simple;
pub mod bar;
pub mod jobs;
