//! The plain listing: one line per definition.
use vstd::prelude::*;

use crate::module::Item;

verus! {

/// Writes the plain listing to `writer`.
#[derive(Debug)]
pub struct PlainOutput<W> {
    pub writer: W,
}

impl<W> PlainOutput<W> {
    pub fn new(writer: W) -> (r: Self)
        ensures
            r.writer == writer,
    {
        PlainOutput { writer }
    }
}

/// The line of one item: `file:///<path>#<id> <module>.<identifier>`.
pub open spec fn plain_line(path: Seq<char>, module: Seq<char>, item: crate::module::ItemView) -> Seq<
    char,
> {
    "file:///"@ + path + "#"@ + item.id + " "@ + module + "."@ + item.identifier + "\n"@
}

/// The line of `item` of the module `module_name` in the file at the
/// canonical path `path`.
pub fn entry_line(path: &str, module_name: &str, item: &Item) -> (r: String)
    ensures
        r@ == plain_line(path@, module_name@, item@),
{
    String::from_str("file:///").concat(path).concat("#").concat(item.id.as_str()).concat(
        " ",
    ).concat(module_name).concat(".").concat(item.identifier.as_str()).concat("\n")
}

} // verus!
