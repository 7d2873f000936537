//! Command dispatch for a chat bot: a registry of named commands, the shapes a
//! command's result may take, and the paging of multi-page results.
pub mod response;
pub mod pagination;
pub mod registry;
pub mod dispatch;
pub mod user_message;
