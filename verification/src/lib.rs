pub mod bootstrap;
pub mod greeting;
