pub mod jarapi;
pub mod manager;
pub mod state;
