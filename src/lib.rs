//! Conversion of a local HTML page to PDF through a browser: the print
//! configuration model and the ordered conversion session.

pub mod layout;
pub mod options;
pub mod pipeline;
pub mod text;
