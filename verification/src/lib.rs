pub mod clock;
pub mod display;
pub mod fibonacci;
pub mod inventory;
pub mod parse;
