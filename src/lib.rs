pub mod text;
pub mod config;
pub mod tracker;
pub mod alert;
pub mod pool;
pub mod probe;
pub mod readiness;
pub mod remote;
pub mod switch;
pub mod safety;
pub mod status;
