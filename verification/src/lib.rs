//! Node core of a decentralized mining pool.
//!
//! The library holds what the node decides and computes: the coinbase
//! identification signature and the reading of its configuration section, the
//! order in which the subsystems start and stop, and the sequential models of
//! the template feed, the job tracker, the broadcaster, the share intake and
//! the channels between them. The tasks, the sockets and the storage are the
//! program's, which asks the library what to do next.

pub mod broadcast;
pub mod channel;
pub mod coinbase_tag;
pub mod config_file;
pub mod feed;
pub mod lifecycle;
pub mod maintenance;
pub mod node;
pub mod shutdown;
pub mod tracker;
