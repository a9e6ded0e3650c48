pub mod messages;
pub mod theme;
pub mod tree_view;
pub mod components;
pub mod tree_ops;
