//! Loading of a configuration document together with every document that it
//! imports, driven by a host that resolves import names and supplies text.

pub mod position;
pub mod format;
mod text;
pub mod parse;
pub mod crawl;
