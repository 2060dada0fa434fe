pub mod diagnostics;
pub mod holder;
pub mod models;
pub mod paths;
pub mod resolve;

pub use resolve::load_conf;
