//! Builders and a wire encoder for etcd's atomic conditional transactions.
pub mod compare;
pub mod prefix;
pub mod txn;
pub mod wire;
