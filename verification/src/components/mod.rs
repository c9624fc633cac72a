//! What the list pages are built from: the windowed list itself, the queue
//! page's drag handling, and the state the pages share.

pub mod context;
pub mod context_menu_button;
pub mod feed;
pub mod gen_components;
pub mod history;
pub mod queue;
pub mod virtual_list;
