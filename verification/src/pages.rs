//! The pages of the application, each with its state and its messages.

pub mod details;
pub mod home;
pub mod welcome;
