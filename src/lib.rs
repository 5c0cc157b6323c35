pub mod graph;
pub mod laws;
