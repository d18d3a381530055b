//! Core logic of an interactive purchase tracker: the screen/field state
//! machine, the text-input editing discipline, the table-selection
//! controller, the structured search/sort query, the shorthand date
//! resolver, and an in-memory record store that the state machine drives.
//!
//! Terminal setup, rendering and on-disk persistence live outside this
//! crate; they read the state held here and feed input events back in.

pub mod date;
pub mod machine;
pub mod price;
pub mod query;
pub mod record;
pub mod select;
pub mod stats;
pub mod store;
pub mod text;
