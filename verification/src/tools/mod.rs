//! The tools of the server: their parameters and their answers.

pub mod click;
pub mod navigate;
pub mod ping;
pub mod press_key;
pub mod type_text;
