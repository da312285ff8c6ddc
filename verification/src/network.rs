pub mod neuron;
pub mod layer;
pub mod net;
