pub mod flows;
pub mod order;
pub mod paths;
pub mod state;
