//! Interior mutability checked before the program runs.
//!
//! Storage (a [`Cell`] or an [`Arena`]) is separated from the proof of access
//! (a [`TokenWith`]). Both carry an identity tag as a const generic, so a
//! token can only open storage of its own tag, and Rust's shared/exclusive
//! reference rules on the token decide which accesses may coexist.
//!
//! Tags come from a single chain: an [`Issuer`] hands out the builder of tag
//! 0 once, and each [`TokenBuilder`] is consumed to make one token and the
//! builder of the next tag.
mod arena;
mod builder;
pub mod cells;
mod issuer;
pub mod tokens;

pub use crate::arena::{Arena, Index, lemma_index_survives_pushes, lemma_push_extends};
pub use crate::builder::{TokenBuilder, chain_tags, lemma_chain_tags};
pub use crate::cells::{Cell, lemma_cell_round_trip};
pub use crate::issuer::{Issuer, first, first_results, lemma_first_once};
pub use crate::tokens::{Token, TokenWith};
