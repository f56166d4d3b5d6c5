//! Planning of `SHOW` statements.
//!
//! A `SHOW` statement lists what the catalog holds, or gives the statement
//! that defines one of its items. A listing is planned as a query over the
//! relations of the system catalog:
//!
//! - `listing` says which base query each listing stands for: its columns,
//!   the relation it reads and the condition it reads it under;
//! - `query` holds the parts of such a query and writes them out as SQL;
//! - `select` puts the user's filter and a fixed order around the base
//!   query, has the result parsed and hands it to the pipeline;
//! - `show` holds the handlers, one for each statement;
//! - `laws` states what holds of every listing and of every planned query.
//!
//! The catalog and the pipeline are the caller's: `context` says what is
//! asked of them, `catalog` what the catalog answers with. `error` names the
//! ways in which planning fails, and `text` writes numbers and string
//! literals.

pub mod catalog;
pub mod context;
pub mod error;
pub mod laws;
pub mod listing;
pub mod query;
pub mod select;
pub mod show;
pub mod text;
