//! Repository search on GitHub, and reports of the results as CSV and HTML.

pub mod text;
pub mod api;
pub mod csv;
pub mod template;
pub mod html;
pub mod cli;
pub mod mcp;
pub mod xlsx;
