pub mod cli;
pub mod general;
