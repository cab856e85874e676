//! A tax-aware withdrawal calculator for a treasury-taxed chain.
//!
//! The crate is the contract's core: its messages, the fixed-point tax
//! arithmetic, and the query router. The core never talks to the host. Where
//! it needs the treasury oracle it says so: [`contract::query`] returns the
//! first question, the driver puts it to the oracle and hands the reply to
//! [`contract::resume`], and so on until the step is
//! [`contract::Step::Done`]. Setting the contract up works the same way:
//! [`contract::instantiate`] returns what the host is to store.

pub mod contract;
pub mod error;
pub mod msg;
pub mod oracle;
pub mod response;
pub mod state;
pub mod tax;
