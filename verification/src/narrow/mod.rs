pub mod sat;
pub mod shapes;
