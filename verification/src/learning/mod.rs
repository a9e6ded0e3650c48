pub mod category_tree;
pub mod timer_machine;
pub mod vault;
pub mod params;
pub mod import;
pub mod session;
pub mod report;
pub mod prediction;
