pub mod common_programming;
pub mod intro;
pub mod intro_struct;
pub mod ownership;
