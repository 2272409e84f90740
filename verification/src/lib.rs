//! Management of a cluster of Lightning nodes, and the state of the
//! desktop interface that shows them.

pub mod ldk;
pub mod text;
pub mod node;
pub mod manager;
pub mod ui;
pub mod laws;


