//! The decisions of the request handlers: what the JSON API and the HTML
//! pages check, and what they answer.

pub mod api;
pub mod pages;
