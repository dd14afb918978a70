pub mod command;
pub mod factory;
pub mod label;
pub mod live;
pub mod window;
