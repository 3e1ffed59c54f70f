pub mod error;
pub mod validation;
pub mod text;
pub mod urls;
pub mod response;
pub mod skin;
pub mod minecraft;
pub mod config;
pub mod ui;
