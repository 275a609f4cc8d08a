//! Common utilities: string validation and formatting, URL checks, and
//! header-map helpers.

pub mod collections;
pub mod string;
pub mod url;
