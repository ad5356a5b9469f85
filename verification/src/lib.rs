//! Query-building, decoding and table-binding core of a companion client for
//! a remote armor/weapon/item database.
//!
//! The crate covers the parts of the client that compute: building filter and
//! projection queries and serializing them into the remote API's
//! JSON-in-query-string convention, parsing compound string-encoded domain
//! values (phial types, shelling types, ammo capacities), flattening entity
//! records into generic row/column table models, and the search/selection
//! state machine.  Network transport and rendering live outside the crate and
//! call into it with plain values.

pub mod armor;
pub mod common;
pub mod entry_display;
pub mod item;
pub mod items;
pub mod query;
pub mod query_filters;
pub mod search;
pub mod table;
pub mod text;
pub mod weapons;
