pub mod processor;
mod rng;
