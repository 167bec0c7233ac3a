//! The closed vocabulary of port names.

use vstd::prelude::*;

verus! {

/// Stands between an identity and the name of one of its cells.
pub const PORT_SEPARATOR: &'static str = "-";

/// The cell that holds the label.
pub const LABEL: &'static str = "label";

/// The cell that holds the type.
pub const TYPE: &'static str = "type";

/// The cell that holds the identity; arrows end here.
pub const ADDRESS: &'static str = "address";

/// The cell that holds the inline value; arrows start here.
pub const VALUE: &'static str = "value";

/// The cell that holds the nested table.
pub const ASSOCIATED_DATA: &'static str = "associated-data";

} // verus!
