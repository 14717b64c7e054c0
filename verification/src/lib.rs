//! A single-ballot poll: an administrator fixes a closed list of options, each
//! identity votes at most once, and the poll keeps a tally per option together
//! with the record of who has voted.
//!
//! The poll does not authenticate anyone and does not own a ledger. A host
//! does both: it authenticates the caller, keeps the stored entries, and
//! delivers the notices. What the poll contributes is the rules, and they are
//! proved:
//!
//! - [`model`] states the poll as mathematics: the state, what each operation
//!   answers and the state it leaves, and what holds at all times.
//! - [`contract`] is the poll in memory, [`PollContract`], with its five
//!   operations, each specified against the model.
//! - [`rules`] holds the same decisions as functions of what one call has
//!   read, for a host that keeps the entries in a store of its own; [`store`]
//!   says which tier of such a store each entry belongs to.
//! - [`laws`] proves what follows: a poll is set up once, an identity votes
//!   once, the tally adds up to the number of voters, the options are closed,
//!   and nothing is answered before setup.
//! - [`names`], [`tally`] and [`roll`] are the parts the poll is built from,
//!   and [`error`] the failures it reports.

pub mod contract;
pub mod error;
pub mod laws;
pub mod model;
pub mod names;
pub mod roll;
pub mod rules;
pub mod store;
pub mod tally;

pub use contract::{PollContract, VoteEvent};
pub use error::PollError;
pub use names::{Identity, Label};
