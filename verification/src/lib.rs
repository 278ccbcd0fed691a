//! Kernel NFS server statistics as a typed record, and the narrow
//! request/response protocol that carries that record from a privileged
//! helper to a sandboxed exporter.

pub mod bintime;
pub mod cap_nfs;
pub mod codec;
pub mod error;
pub mod gate;
pub mod message;
pub mod nfs;
pub mod rpc;
