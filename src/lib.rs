pub mod config;
pub mod follower;
pub mod json;
pub mod miner;
pub mod window;
