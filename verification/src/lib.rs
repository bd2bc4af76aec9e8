//! The decisions of a Lightning payment node: what is shown, resolved, sent, awaited and
//! reported. The node itself, its network and its clock stay outside; they are fed in as plain
//! values.

pub mod amount;
pub mod channel;
pub mod error;
pub mod event;
pub mod invoice;
pub mod ldk;
pub mod logging;
pub mod outcome;
pub mod pay;
pub mod receive;
pub mod resolve;
pub mod scid;
pub mod session;
pub mod setup;
pub mod text;
