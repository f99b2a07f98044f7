//! A clipboard snippet manager's logic: clips are stored under a keyword
//! and a name, found again by a query, and copied with the query's words
//! filled into their placeholders.
//!
//! The library works on values: the store as it was loaded, the query as
//! it was typed and parsed, the form as it was submitted. Reading and
//! writing the store and talking to the host are the caller's part.

pub mod actions;
pub mod db;
pub mod forms;
pub mod fuzzy;
pub mod icons;
pub mod results;
pub mod template;
pub mod text;
