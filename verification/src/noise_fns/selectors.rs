pub mod blend;
