//! The JSON listing: one object per definition.
use vstd::prelude::*;

use crate::module::Item;

verus! {

/// One definition as the JSON listing shows it.
#[derive(Debug, Clone)]
pub struct IndexItem {
    pub module: String,
    pub identifier: String,
    /// `<module>.html#<id>`, where the definition is taken to live.
    pub href: String,
}

/// The listing entry of `item` of the module `module_name`.
pub fn index_item(module_name: &str, item: &Item) -> (r: IndexItem)
    ensures
        r.module@ == module_name@,
        r.identifier@ == item.identifier@,
        r.href@ == module_name@ + ".html#"@ + item.id@,
{
    IndexItem {
        module: String::from_str(module_name),
        identifier: item.identifier.clone(),
        href: String::from_str(module_name).concat(".html#").concat(item.id.as_str()),
    }
}

} // verus!
