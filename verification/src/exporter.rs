//! The export formats.

use vstd::prelude::*;

verus! {

/// Exports items as a pretty-printed JSON file: `{ "items": [...] }`.
pub struct JsonExporter;

/// Exports items into a new SQLite file, inserting all rows in a single
/// transaction.
pub struct SqliteExporter;

} // verus!
