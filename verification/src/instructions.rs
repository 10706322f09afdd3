//! Instructions over the first layout of the protocol account.
pub mod initialize;
