//! Site generation: Markdown handling, asset optimisation and the search
//! index.

pub mod assets;
pub mod markdown;
pub mod search_index;
pub mod site;
