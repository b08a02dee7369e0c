//! A node of a distributed directory: a key/value store whose objects move
//! between peers, each peer keeping either the object itself or a pointer
//! to the peer it handed the object to.

pub mod db;
pub mod database_memory;
pub mod errors;
pub mod peers;
pub mod jobs;
pub mod communication_types;
pub mod node;
pub mod laws;
pub mod handler;
pub mod text;
pub mod cli;
pub mod storage;
pub mod key_tool;
pub mod keys;
pub mod bootstrap;
pub mod system;
pub mod operation_laws;
