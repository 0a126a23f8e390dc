//! Command protocol layer of a haiku chat bot: typed parsing of incoming
//! interactions, command schemas and their registry, the dispatcher's
//! decisions, and a paginated browser over search results.

pub mod interaction;
pub mod commands;
pub mod schema;
pub mod registry;
pub mod dispatch;
pub mod pager;
