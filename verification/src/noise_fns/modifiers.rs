pub mod abs;
pub mod negate;
