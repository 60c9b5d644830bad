//! The definition extractor: one rendered document to one `Module`.
use vstd::prelude::*;

use crate::links::{link_target, parse_url, resolve_link, parsed_url, LinkError};
use crate::role::{classify, role_of, SemanticRole};

verus! {

/// Selects the anchors that mark definitions: any of the recognised
/// semantic classes, nested under the `Agda` root class.
pub const ITEM_SELECTOR: &'static str = ".Agda .Function, .Agda .Datatype, .Agda .InductiveConstructor, .Agda .CoinductiveConstructor, .Agda .Record, .Agda .Field";

/// Selects the title element that names the module.
pub const TITLE_SELECTOR: &'static str = "html title";

/// One indexed definition.
#[derive(Debug, Clone)]
pub struct Item {
    /// The anchor's `id`, unique within its document.
    pub id: String,
    /// The definition's name as displayed.
    pub identifier: String,
    /// What kind of definition it is.
    pub role: SemanticRole,
}

/// An `Item` as plain text.
pub struct ItemView {
    pub id: Seq<char>,
    pub identifier: Seq<char>,
    pub role: SemanticRole,
}

impl View for Item {
    type V = ItemView;

    open spec fn view(&self) -> ItemView {
        ItemView { id: self.id@, identifier: self.identifier@, role: self.role }
    }
}

/// The definitions of one document, in document order.
#[derive(Debug, Clone)]
pub struct Module {
    /// The document's title.
    pub name: String,
    pub items: Vec<Item>,
}

/// The view of a list of items.
pub open spec fn items_view(items: Seq<Item>) -> Seq<ItemView> {
    items.map_values(|i: Item| i@)
}

/// What the extractor reads of one selected element.
#[derive(Debug, Clone)]
pub struct MarkedElement {
    /// The first text node under the element.
    pub text: Option<String>,
    /// The element's inner HTML.
    pub inner_html: String,
    /// Its `id` attribute.
    pub id: Option<String>,
    /// Its `href` attribute.
    pub href: Option<String>,
    /// Its `class` attribute.
    pub classes: Option<String>,
}

/// A `MarkedElement` as plain text.
pub struct MarkedView {
    pub text: Option<Seq<char>>,
    pub inner_html: Seq<char>,
    pub id: Option<Seq<char>>,
    pub href: Option<Seq<char>>,
    pub classes: Option<Seq<char>>,
}

pub open spec fn opt_view(o: Option<String>) -> Option<Seq<char>> {
    match o {
        Some(s) => Some(s@),
        None => None,
    }
}

impl View for MarkedElement {
    type V = MarkedView;

    open spec fn view(&self) -> MarkedView {
        MarkedView {
            text: opt_view(self.text),
            inner_html: self.inner_html@,
            id: opt_view(self.id),
            href: opt_view(self.href),
            classes: opt_view(self.classes),
        }
    }
}

/// The view of a list of selected elements.
pub open spec fn elements_view(elements: Seq<MarkedElement>) -> Seq<MarkedView> {
    elements.map_values(|e: MarkedElement| e@)
}

/// The elements of a document that a CSS selector matches, in document order,
/// as scraper selects them; `None` where the selector does not parse.
pub uninterp spec fn selected_elements(document: Seq<char>, selector: Seq<char>) -> Option<
    Seq<MarkedView>,
>;

/// Relies on scraper: `Selector::parse` for the selector, `Html::parse_document`
/// for the document, and `Html::select` for the matching elements in document
/// order; of each it keeps the first text node, the inner HTML, and the `id`,
/// `href` and `class` attributes.
#[verifier::external_body]
fn select_elements(document: &str, selector: &str) -> (r: Option<Vec<MarkedElement>>)
    ensures
        r matches Some(v) ==> selected_elements(document@, selector@) == Some(elements_view(v@)),
        r is None ==> selected_elements(document@, selector@) is None,
{
    let selector = scraper::Selector::parse(selector).ok()?;
    let html = scraper::Html::parse_document(document);
    let found = html.select(&selector).map(|e| MarkedElement {
        text: e.text().next().map(String::from),
        inner_html: e.inner_html(),
        id: e.value().id().map(String::from),
        href: e.value().attr("href").map(String::from),
        classes: e.value().attr("class").map(String::from),
    });
    Some(found.collect())
}

/// Why one anchor was skipped.
#[derive(Debug, Clone, Copy, PartialEq, Eq, Structural)]
pub enum ItemError {
    /// The anchor holds no text.
    MissingText,
    /// The anchor has no `id`.
    MissingId,
    /// The anchor's classes name no semantic role.
    NoRole,
    /// The anchor's link target could not be resolved.
    Link(LinkError),
}

/// Why a document yields no module.
#[derive(Debug, Clone, Copy, PartialEq, Eq, Structural)]
pub enum ExtractError {
    /// The document has no title element.
    NoModuleName,
    /// A selector of the extractor does not parse.
    InvalidSelector,
}

/// The verdict on one selected element of the module `name`, in a document at
/// `base`: an item where it is a local definition, nothing where it refers
/// elsewhere, an error where it is malformed.
pub open spec fn item_verdict(base: Seq<char>, name: Seq<char>, e: MarkedView) -> Result<
    Option<ItemView>,
    ItemError,
> {
    match e.text {
        None => Err(ItemError::MissingText),
        Some(text) => match e.id {
            None => Err(ItemError::MissingId),
            Some(id) => match role_of(e.classes.unwrap_or(Seq::empty())) {
                None => Err(ItemError::NoRole),
                Some(role) => {
                    let item = ItemView { id, identifier: text, role };
                    match e.href {
                        None => Ok(Some(item)),
                        Some(href) => match link_target(base, href) {
                            Err(le) => Err(ItemError::Link(le)),
                            Ok((target_id, target_module)) => if target_id == id && target_module
                                == name {
                                Ok(Some(item))
                            } else {
                                Ok(None)
                            },
                        },
                    }
                },
            },
        },
    }
}

/// The items that the elements yield, in their order.
pub open spec fn accepted_items(base: Seq<char>, name: Seq<char>, elements: Seq<MarkedView>) -> Seq<
    ItemView,
>
    decreases elements.len(),
{
    if elements.len() == 0 {
        Seq::empty()
    } else {
        let rest = accepted_items(base, name, elements.drop_last());
        match item_verdict(base, name, elements.last()) {
            Ok(Some(item)) => rest.push(item),
            _ => rest,
        }
    }
}

/// The module that a document yields.
pub open spec fn extracted_module(base: Seq<char>, document: Seq<char>) -> Result<
    (Seq<char>, Seq<ItemView>),
    ExtractError,
> {
    match selected_elements(document, TITLE_SELECTOR@) {
        None => Err(ExtractError::InvalidSelector),
        Some(titles) => if titles.len() == 0 {
            Err(ExtractError::NoModuleName)
        } else {
            let name = titles[0].inner_html;
            match selected_elements(document, ITEM_SELECTOR@) {
                None => Err(ExtractError::InvalidSelector),
                Some(elements) => Ok((name, accepted_items(base, name, elements))),
            }
        },
    }
}

/// Extracts modules from documents that live at one location.
#[derive(Debug, Clone)]
pub struct ModuleParser {
    /// The URL of the document, against which its links resolve.
    pub base_url: String,
}

impl ModuleParser {
    /// A parser for documents at `base_url`.
    pub fn new(base_url: String) -> (r: ModuleParser)
        ensures
            r.base_url@ == base_url@,
    {
        ModuleParser { base_url }
    }

    /// A parser for the document at the file `path`; `None` where
    /// `file://<path>` is no URL.
    pub fn from_path(path: &str) -> (r: Option<ModuleParser>)
        ensures
            r matches Some(p) ==> parsed_url(file_url(path@)) == Some(p.base_url@),
            r is None ==> parsed_url(file_url(path@)) is None,
    {
        let text = String::from_str("file://").concat(path);
        match parse_url(text.as_str()) {
            Some(u) => Some(ModuleParser { base_url: u }),
            None => None,
        }
    }

    /// The verdict on one selected element of the module `module_name`.
    pub fn parse_item(&self, element: &MarkedElement, module_name: &str) -> (r: Result<
        Option<Item>,
        ItemError,
    >)
        ensures
            r matches Ok(Some(item)) ==> item_verdict(self.base_url@, module_name@, element@)
                == Ok::<_, ItemError>(Some(item@)),
            r matches Ok(None) ==> item_verdict(self.base_url@, module_name@, element@)
                == Ok::<Option<ItemView>, ItemError>(None),
            r matches Err(e) ==> item_verdict(self.base_url@, module_name@, element@) == Err::<
                Option<ItemView>,
                _,
            >(e),
    {
        let identifier = match &element.text {
            Some(t) => t.clone(),
            None => return Err(ItemError::MissingText),
        };
        let id = match &element.id {
            Some(i) => i.clone(),
            None => return Err(ItemError::MissingId),
        };
        let role = match &element.classes {
            Some(c) => classify(c.as_str()),
            None => {
                proof {
                    reveal_strlit("");
                }
                assert(""@ =~= Seq::<char>::empty());
                classify("")
            },
        };
        let role = match role {
            Some(r) => r,
            None => return Err(ItemError::NoRole),
        };
        let href = match &element.href {
            Some(h) => h,
            // Anchors that point nowhere are taken as definitions, such as
            // `Y` in `import Foo.Bar renaming (X to Y)`.
            None => return Ok(Some(Item { id, identifier, role })),
        };
        match resolve_link(self.base_url.as_str(), href.as_str()) {
            Err(e) => Err(ItemError::Link(e)),
            Ok((target_id, target_module)) => {
                let module = String::from_str(module_name);
                if target_id == id && target_module == module {
                    Ok(Some(Item { id, identifier, role }))
                } else {
                    Ok(None)
                }
            },
        }
    }

    /// The items that the selected elements of the module `module_name`
    /// yield, in their order; skipped and foreign anchors are left out.
    pub fn select_items(&self, elements: &Vec<MarkedElement>, module_name: &str) -> (r: Vec<Item>)
        ensures
            items_view(r@) == accepted_items(self.base_url@, module_name@, elements_view(elements@)),
    {
        let mut items: Vec<Item> = Vec::new();
        let mut i: usize = 0;
        while i < elements.len()
            invariant
                i <= elements.len(),
                items_view(items@) == accepted_items(
                    self.base_url@,
                    module_name@,
                    elements_view(elements@.subrange(0, i as int)),
                ),
            decreases elements.len() - i,
        {
            let ghost before = elements_view(elements@.subrange(0, i as int));
            proof {
                let next = elements_view(elements@.subrange(0, i + 1));
                assert(next.drop_last() =~= before);
                assert(next.last() == elements@[i as int]@);
            }
            match self.parse_item(&elements[i], module_name) {
                Ok(Some(item)) => {
                    items.push(item);
                    assert(items_view(items@) =~= items_view(items@).drop_last().push(item@));
                },
                _ => {},
            }
            i += 1;
        }
        assert(elements@.subrange(0, elements.len() as int) =~= elements@);
        items
    }

    /// Extracts the module of a document: its name is the inner HTML of the
    /// first title element, its items those of the marked anchors that define
    /// something here.
    pub fn parse_module(&self, content: &str) -> (r: Result<Module, ExtractError>)
        ensures
            r matches Ok(m) ==> extracted_module(self.base_url@, content@) == Ok::<_, ExtractError>(
                (m.name@, items_view(m.items@)),
            ),
            r matches Err(e) ==> extracted_module(self.base_url@, content@) == Err::<
                (Seq<char>, Seq<ItemView>),
                _,
            >(e),
    {
        let titles = match select_elements(content, TITLE_SELECTOR) {
            Some(t) => t,
            None => return Err(ExtractError::InvalidSelector),
        };
        if titles.len() == 0 {
            return Err(ExtractError::NoModuleName);
        }
        let name = titles[0].inner_html.clone();
        let elements = match select_elements(content, ITEM_SELECTOR) {
            Some(e) => e,
            None => return Err(ExtractError::InvalidSelector),
        };
        let items = self.select_items(&elements, name.as_str());
        Ok(Module { name, items })
    }
}

/// The items of a single element are those of its verdict.
proof fn single_element_items(base: Seq<char>, name: Seq<char>, e: MarkedView)
    ensures
        accepted_items(base, name, seq![e]) == match item_verdict(base, name, e) {
            Ok(Some(item)) => seq![item],
            _ => Seq::<ItemView>::empty(),
        },
{
    assert(seq![e].drop_last() =~= Seq::<MarkedView>::empty());
    assert(seq![e].last() == e);
    assert(accepted_items(base, name, Seq::<MarkedView>::empty()) == Seq::<ItemView>::empty());
    match item_verdict(base, name, e) {
        Ok(Some(item)) => {
            assert(Seq::<ItemView>::empty().push(item) =~= seq![item]);
        },
        _ => {},
    }
}

/// An anchor whose link resolves to its own id in the current module is a
/// definition: it is kept, with its id and text.
pub proof fn self_link_is_kept(base: Seq<char>, name: Seq<char>, e: MarkedView)
    requires
        e.text is Some,
        e.id is Some,
        e.classes matches Some(c) && role_of(c) is Some,
        e.href is Some,
        link_target(base, e.href->0) == Ok::<_, LinkError>((e.id->0, name)),
    ensures
        accepted_items(base, name, seq![e]) == seq![
            ItemView { id: e.id->0, identifier: e.text->0, role: role_of(e.classes->0)->0 },
        ],
{
    single_element_items(base, name, e);
}

/// An anchor whose link resolves to another id, or to another module, is a
/// cross-reference: it yields no item.
pub proof fn foreign_link_is_dropped(base: Seq<char>, name: Seq<char>, e: MarkedView)
    requires
        e.href is Some,
        link_target(base, e.href->0) matches Ok((target_id, target_module)) && (e.id != Some(
            target_id,
        ) || target_module != name),
    ensures
        accepted_items(base, name, seq![e]) == Seq::<ItemView>::empty(),
{
    single_element_items(base, name, e);
}

/// An anchor with text, an id and a role but no link is kept whatever the
/// module.
pub proof fn unlinked_anchor_is_kept(base: Seq<char>, name: Seq<char>, e: MarkedView)
    requires
        e.text is Some,
        e.id is Some,
        e.classes matches Some(c) && role_of(c) is Some,
        e.href is None,
    ensures
        accepted_items(base, name, seq![e]) == seq![
            ItemView { id: e.id->0, identifier: e.text->0, role: role_of(e.classes->0)->0 },
        ],
{
    single_element_items(base, name, e);
}

/// Extraction keeps document order: the items of two consecutive runs of
/// elements are those of the first run followed by those of the second.
pub proof fn items_keep_document_order(
    base: Seq<char>,
    name: Seq<char>,
    first: Seq<MarkedView>,
    second: Seq<MarkedView>,
)
    ensures
        accepted_items(base, name, first + second) == accepted_items(base, name, first)
            + accepted_items(base, name, second),
    decreases second.len(),
{
    if second.len() == 0 {
        assert(first + second =~= first);
        assert(accepted_items(base, name, first) + accepted_items(base, name, second)
            =~= accepted_items(base, name, first));
    } else {
        assert((first + second).drop_last() =~= first + second.drop_last());
        assert((first + second).last() == second.last());
        items_keep_document_order(base, name, first, second.drop_last());
        let left = accepted_items(base, name, first);
        let right = accepted_items(base, name, second.drop_last());
        match item_verdict(base, name, second.last()) {
            Ok(Some(item)) => {
                assert((left + right).push(item) =~= left + right.push(item));
            },
            _ => {},
        }
    }
}

/// `file://` followed by a path.
pub open spec fn file_url(path: Seq<char>) -> Seq<char> {
    "file://"@ + path
}

} // verus!
