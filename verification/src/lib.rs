//! A minimal hash-linked ledger: blocks that name their predecessor by a
//! content-derived identity, and a chain that checks those links.

pub mod block;
pub mod chain;
pub mod hash;
pub mod time;

pub use block::Block;
pub use chain::Chain;
pub use hash::gen_id;
pub use hash::ContentHash;
pub use time::Timestamp;
