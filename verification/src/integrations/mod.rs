pub mod vrchat;
pub mod eliza;
pub mod auto_input;
