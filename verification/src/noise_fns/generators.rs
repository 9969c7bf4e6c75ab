pub mod checkerboard;
pub mod cylinders;
pub mod perlin;
