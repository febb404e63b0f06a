//! Bidirectional relay between stdin/stdout and a Windows named pipe or an
//! Assuan-style TCP rendezvous, verified at the level of its decision logic:
//! path normalization, rendezvous parsing, connect retry policy, overlapped
//! I/O dispatch, event-handle pooling, and the two relay pumps.

pub mod cli;
pub mod connect;
pub mod dec;
pub mod errors;
pub mod overlapped;
pub mod pipe;
pub mod pipes;
pub mod relay;
pub mod rendezvous;
pub mod winpath;
