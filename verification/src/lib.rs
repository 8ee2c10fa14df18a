pub mod api;
pub mod cache;
pub mod cli;
pub mod clock;
pub mod currency;
pub mod text;
pub mod utils;
pub mod validation;
