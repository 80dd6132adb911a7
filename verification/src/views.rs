//! Mathematical views of the nested containers that cross the crate's
//! interfaces.

use vstd::prelude::*;

verus! {

/// A list of strings as a sequence of character sequences.
pub open spec fn texts(list: Seq<String>) -> Seq<Seq<char>> {
    list.map_values(|s: String| s@)
}

/// A list of byte vectors as a sequence of byte sequences.
pub open spec fn byte_strings(list: Seq<Vec<u8>>) -> Seq<Seq<u8>> {
    list.map_values(|b: Vec<u8>| b@)
}

} // verus!
