//! What holds of the front end as a whole.
pub mod commands;
pub mod names;
pub mod requests;
pub mod roots;
pub mod runs;
pub mod searches;
pub mod steps;
pub mod texts;
pub mod views;
