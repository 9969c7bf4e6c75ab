pub mod turbulence;
