//! Metadata viewer core: text-annotation reports for chunked image
//! containers and the window controller that displays them.

pub mod controller;
pub mod event_loop;
pub mod extract;
pub mod message;
pub mod report;
pub mod text;
