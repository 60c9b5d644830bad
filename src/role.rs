//! The semantic role of a marked anchor, from its `class` attribute.
use vstd::prelude::*;

verus! {

/// What kind of definition an anchor marks.
#[derive(Debug, Clone, Copy, PartialEq, Eq, Structural)]
pub enum SemanticRole {
    Function,
    Datatype,
    InductiveConstructor,
    CoinductiveConstructor,
    Record,
    Field,
}

/// The characters that separate the classes of a `class` attribute.
pub open spec fn is_class_space(c: char) -> bool {
    c == ' ' || c == '\t' || c == '\n' || c == '\x0C' || c == '\r'
}

/// `name` stands as a whole class at position `i` of the attribute `attr`.
pub open spec fn class_at(attr: Seq<char>, name: Seq<char>, i: int) -> bool {
    &&& 0 <= i
    &&& i + name.len() <= attr.len()
    &&& attr.subrange(i, i + name.len()) == name
    &&& (i == 0 || is_class_space(attr[i - 1]))
    &&& (i + name.len() == attr.len() || is_class_space(attr[i + name.len()]))
}

/// The attribute `attr` lists the class `name`.
pub open spec fn has_class(attr: Seq<char>, name: Seq<char>) -> bool {
    exists|i: int| class_at(attr, name, i)
}

/// The role of an anchor with the classes `attr`: the first of the roles, in
/// the order of `SemanticRole`, whose name it lists.
pub open spec fn role_of(attr: Seq<char>) -> Option<SemanticRole> {
    if has_class(attr, "Function"@) {
        Some(SemanticRole::Function)
    } else if has_class(attr, "Datatype"@) {
        Some(SemanticRole::Datatype)
    } else if has_class(attr, "InductiveConstructor"@) {
        Some(SemanticRole::InductiveConstructor)
    } else if has_class(attr, "CoinductiveConstructor"@) {
        Some(SemanticRole::CoinductiveConstructor)
    } else if has_class(attr, "Record"@) {
        Some(SemanticRole::Record)
    } else if has_class(attr, "Field"@) {
        Some(SemanticRole::Field)
    } else {
        None
    }
}

fn is_space(c: char) -> (r: bool)
    ensures
        r == is_class_space(c),
{
    c == ' ' || c == '\t' || c == '\n' || c == '\x0C' || c == '\r'
}

fn class_at_exec(attr: &str, attr_len: usize, name: &str, name_len: usize, i: usize) -> (r: bool)
    requires
        attr_len == attr@.len(),
        name_len == name@.len(),
        i + name_len <= attr_len,
    ensures
        r == class_at(attr@, name@, i as int),
{
    if i > 0 && !is_space(attr.get_char(i - 1)) {
        return false;
    }
    if i + name_len < attr_len && !is_space(attr.get_char(i + name_len)) {
        return false;
    }
    let mut j: usize = 0;
    while j < name_len
        invariant
            j <= name_len,
            i + name_len <= attr_len,
            attr_len == attr@.len(),
            name_len == name@.len(),
            forall|k: int| 0 <= k < j ==> attr@[i + k] == name@[k],
        decreases name_len - j,
    {
        if attr.get_char(i + j) != name.get_char(j) {
            assert(attr@.subrange(i as int, i + name_len)[j as int] != name@[j as int]);
            return false;
        }
        j += 1;
    }
    assert(attr@.subrange(i as int, i + name_len) =~= name@);
    true
}

/// Whether the attribute `attr` lists the class `name`.
pub fn lists_class(attr: &str, name: &str) -> (r: bool)
    ensures
        r == has_class(attr@, name@),
{
    let n = attr.unicode_len();
    let m = name.unicode_len();
    if m > n {
        return false;
    }
    let mut i: usize = 0;
    while i <= n - m
        invariant
            m <= n,
            n == attr@.len(),
            m == name@.len(),
            forall|k: int| 0 <= k < i ==> !class_at(attr@, name@, k),
        decreases n - m + 1 - i,
    {
        if class_at_exec(attr, n, name, m, i) {
            return true;
        }
        if i == n - m {
            return false;
        }
        i += 1;
    }
    false
}

/// The role of an anchor with the classes `attr`.
pub fn classify(attr: &str) -> (r: Option<SemanticRole>)
    ensures
        r == role_of(attr@),
{
    if lists_class(attr, "Function") {
        Some(SemanticRole::Function)
    } else if lists_class(attr, "Datatype") {
        Some(SemanticRole::Datatype)
    } else if lists_class(attr, "InductiveConstructor") {
        Some(SemanticRole::InductiveConstructor)
    } else if lists_class(attr, "CoinductiveConstructor") {
        Some(SemanticRole::CoinductiveConstructor)
    } else if lists_class(attr, "Record") {
        Some(SemanticRole::Record)
    } else if lists_class(attr, "Field") {
        Some(SemanticRole::Field)
    } else {
        None
    }
}

} // verus!
