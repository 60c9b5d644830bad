//! The documentation bundle: where its parts go, what its metadata says, and
//! which rows its search index holds.
//!
//! Creating directories, copying files and talking to the relational store
//! are left to the caller, which performs what the plans here describe.
use vstd::prelude::*;

use crate::links::{file_name, file_name_of, join_path, joined_path};
use crate::module::{items_view, ItemView};
use crate::pipeline::Item;

verus! {

/// Where a bundle is written and what it is called.
#[derive(Debug, Clone)]
pub struct DocsetOutput {
    /// The bundle's name, also the library's.
    pub name: String,
    /// The directory in which `<name>.docset` is made.
    pub output_directory: String,
    /// The directory of the rendered documents.
    pub input_directory: String,
    /// The main page, relative to the documents.
    pub main_page: String,
}

/// Why a bundle cannot be written.
#[derive(Debug, Clone, Copy, PartialEq, Eq, Structural)]
pub enum DocsetError {
    /// The bundle's directory exists already.
    AlreadyExists,
    /// A source path has no file name to copy the document under.
    NoFileName,
}

/// One row of the search index.
#[derive(Debug, Clone)]
pub struct IndexEntry {
    pub name: String,
    pub entry_type: String,
    pub path: String,
}

impl IndexEntry {
    /// A copy of the row.
    pub fn clone_entry(&self) -> (r: IndexEntry)
        ensures
            r@ == self@,
    {
        IndexEntry {
            name: self.name.clone(),
            entry_type: self.entry_type.clone(),
            path: self.path.clone(),
        }
    }
}

impl View for IndexEntry {
    type V = (Seq<char>, Seq<char>, Seq<char>);

    open spec fn view(&self) -> (Seq<char>, Seq<char>, Seq<char>) {
        (self.name@, self.entry_type@, self.path@)
    }
}

pub open spec fn entries_view(entries: Seq<IndexEntry>) -> Seq<(Seq<char>, Seq<char>, Seq<char>)> {
    entries.map_values(|e: IndexEntry| e@)
}

/// The row of one item of the module `module` copied as `file`.
pub open spec fn item_entry(file: Seq<char>, module: Seq<char>, item: ItemView) -> (
    Seq<char>,
    Seq<char>,
    Seq<char>,
) {
    (module + "."@ + item.identifier, "Function"@, file + "#"@ + item.id)
}

/// The rows of a module copied as `file`: one for the module, then one for
/// each item in order.
pub open spec fn module_entries(file: Seq<char>, module: Seq<char>, items: Seq<ItemView>) -> Seq<
    (Seq<char>, Seq<char>, Seq<char>),
> {
    seq![(module, "Module"@, file)] + items.map_values(|i: ItemView| item_entry(file, module, i))
}

/// The metadata descriptor of a bundle.
pub open spec fn plist_text(name: Seq<char>, main_page: Seq<char>) -> Seq<char> {
    PLIST_HEAD@ + name + PLIST_NAME@ + name + PLIST_PLATFORM@ + name + PLIST_INDEX@
        + main_page + PLIST_TAIL@
}

pub const PLIST_HEAD: &'static str = "<?xml version=\"1.0\" encoding=\"UTF-8\"?>\n<!DOCTYPE plist PUBLIC \"-//Apple//DTD PLIST 1.0//EN\" \"http://www.apple.com/DTDs/PropertyList-1.0.dtd\">\n<plist version=\"1.0\">\n<dict>\n    <key>CFBundleIdentifier</key>\n    <string>";

pub const PLIST_NAME: &'static str = "</string>\n    <key>CFBundleName</key>\n    <string>";

pub const PLIST_PLATFORM: &'static str = "</string>\n    <key>DocSetPlatformFamily</key>\n    <string>";

pub const PLIST_INDEX: &'static str = "</string>\n    <key>isDashDocset</key>\n    <true/>\n    <key>dashIndexFilePath</key>\n    <string>";

pub const PLIST_TAIL: &'static str = "</string>\n</dict>\n</plist>\n";

/// What one result adds to the bundle: the document copied from `copy_from`
/// to `copy_to`, and the rows of its module.
#[derive(Debug, Clone)]
pub struct ModulePlan {
    pub copy_from: String,
    pub copy_to: String,
    pub entries: Vec<IndexEntry>,
}

impl DocsetOutput {
    pub fn new(
        name: String,
        output_directory: String,
        input_directory: String,
        main_page: String,
    ) -> (r: DocsetOutput)
        ensures
            r.name@ == name@,
            r.output_directory@ == output_directory@,
            r.input_directory@ == input_directory@,
            r.main_page@ == main_page@,
    {
        DocsetOutput { name, output_directory, input_directory, main_page }
    }

    pub open spec fn docset_dir_spec(&self) -> Seq<char> {
        joined_path(self.output_directory@, self.name@ + ".docset"@)
    }

    pub open spec fn documents_dir_spec(&self) -> Seq<char> {
        joined_path(self.docset_dir_spec(), "Contents/Resources/Documents/"@)
    }

    /// `<output_directory>/<name>.docset`.
    pub fn docset_dir(&self) -> (r: String)
        ensures
            r@ == self.docset_dir_spec(),
    {
        let dir = self.name.clone().concat(".docset");
        join_path(self.output_directory.as_str(), dir.as_str())
    }

    /// The directory of the copied documents.
    pub fn documents_dir(&self) -> (r: String)
        ensures
            r@ == self.documents_dir_spec(),
    {
        join_path(self.docset_dir().as_str(), "Contents/Resources/Documents/")
    }

    /// The relational store of the search index.
    pub fn index_database_path(&self) -> (r: String)
        ensures
            r@ == joined_path(self.docset_dir_spec(), "Contents/Resources/docSet.dsidx"@),
    {
        join_path(self.docset_dir().as_str(), "Contents/Resources/docSet.dsidx")
    }

    /// The metadata descriptor.
    pub fn info_plist_path(&self) -> (r: String)
        ensures
            r@ == joined_path(self.docset_dir_spec(), "Contents/Info.plist"@),
    {
        join_path(self.docset_dir().as_str(), "Contents/Info.plist")
    }

    /// The icon asset.
    pub fn icon_path(&self) -> (r: String)
        ensures
            r@ == joined_path(self.docset_dir_spec(), "icon.svg"@),
    {
        join_path(self.docset_dir().as_str(), "icon.svg")
    }

    /// The custom stylesheet beside the documents, if there is one.
    pub fn stylesheet_source(&self) -> (r: String)
        ensures
            r@ == joined_path(self.input_directory@, "Agda.css"@),
    {
        join_path(self.input_directory.as_str(), "Agda.css")
    }

    /// Where the custom stylesheet is copied to.
    pub fn stylesheet_target(&self) -> (r: String)
        ensures
            r@ == joined_path(self.documents_dir_spec(), "Agda.css"@),
    {
        join_path(self.documents_dir().as_str(), "Agda.css")
    }

    /// Fails where the bundle's directory exists already: a bundle is never
    /// written over.
    pub fn check_exists(&self, exists: bool) -> (r: Result<(), DocsetError>)
        ensures
            r is Err <==> exists,
            r matches Err(e) ==> e == DocsetError::AlreadyExists,
    {
        if exists {
            Err(DocsetError::AlreadyExists)
        } else {
            Ok(())
        }
    }

    /// The metadata descriptor of the bundle.
    pub fn metadata(&self) -> (r: String)
        ensures
            r@ == plist_text(self.name@, self.main_page@),
    {
        String::from_str(PLIST_HEAD).concat(self.name.as_str()).concat(PLIST_NAME).concat(
            self.name.as_str(),
        ).concat(PLIST_PLATFORM).concat(self.name.as_str()).concat(PLIST_INDEX).concat(
            self.main_page.as_str(),
        ).concat(PLIST_TAIL)
    }

    /// What the result `item` adds to the bundle; fails where its source path
    /// has no file name.
    pub fn plan_module(&self, item: &Item) -> (r: Result<ModulePlan, DocsetError>)
        ensures
            r is Err <==> file_name_of(item.source_path@) is None,
            r matches Err(e) ==> e == DocsetError::NoFileName,
            r matches Ok(plan) ==> {
                let file = file_name_of(item.source_path@)->0;
                &&& plan.copy_from@ == item.source_path@
                &&& plan.copy_to@ == joined_path(self.documents_dir_spec(), file)
                &&& entries_view(plan.entries@) == module_entries(
                    file,
                    item.module.name@,
                    items_view(item.module.items@),
                )
            },
    {
        let file = match file_name(item.source_path.as_str()) {
            Some(f) => f,
            None => return Err(DocsetError::NoFileName),
        };
        let copy_to = join_path(self.documents_dir().as_str(), file.as_str());
        let entries = module_index_entries(file.as_str(), &item.module);
        Ok(ModulePlan { copy_from: item.source_path.clone(), copy_to, entries })
    }
}

/// The rows of `module` copied as `file`.
pub fn module_index_entries(file: &str, module: &crate::module::Module) -> (r: Vec<IndexEntry>)
    ensures
        entries_view(r@) == module_entries(file@, module.name@, items_view(module.items@)),
{
    let mut entries: Vec<IndexEntry> = Vec::new();
    entries.push(
        IndexEntry {
            name: module.name.clone(),
            entry_type: String::from_str("Module"),
            path: String::from_str(file),
        },
    );
    let ghost items = items_view(module.items@);
    let mut i: usize = 0;
    while i < module.items.len()
        invariant
            i <= module.items.len(),
            items == items_view(module.items@),
            entries_view(entries@) == seq![(module.name@, "Module"@, file@)]
                + items.subrange(0, i as int).map_values(
                |v: ItemView| item_entry(file@, module.name@, v),
            ),
        decreases module.items.len() - i,
    {
        let item = &module.items[i];
        let name = module.name.clone().concat(".").concat(item.identifier.as_str());
        let path = String::from_str(file).concat("#").concat(item.id.as_str());
        let entry = IndexEntry { name, entry_type: String::from_str("Function"), path };
        let ghost before = entries@;
        entries.push(entry);
        proof {
            assert(entry@ == item_entry(file@, module.name@, items[i as int]));
            assert(entries@ == before.push(entry));
            assert(entries_view(entries@) =~= entries_view(before).push(entry@));
            assert(items[i as int] == module.items@[i as int]@);
            assert(items.subrange(0, i + 1).map_values(
                |v: ItemView| item_entry(file@, module.name@, v),
            ) =~= items.subrange(0, i as int).map_values(
                |v: ItemView| item_entry(file@, module.name@, v),
            ).push(item_entry(file@, module.name@, items[i as int])));
            assert(seq![(module.name@, "Module"@, file@)] + items.subrange(0, i + 1).map_values(
                |v: ItemView| item_entry(file@, module.name@, v),
            ) =~= (seq![(module.name@, "Module"@, file@)] + items.subrange(0, i as int).map_values(
                |v: ItemView| item_entry(file@, module.name@, v),
            )).push(entry@));
        }
        i += 1;
    }
    assert(items.subrange(0, items.len() as int) =~= items);
    entries
}

/// A row as its three columns.
pub type Row = (Seq<char>, Seq<char>, Seq<char>);

/// The rows a store with a unique constraint on all its columns holds after
/// the rows `inserted` were inserted in order, each that is there already
/// being ignored.
pub open spec fn stored_rows(inserted: Seq<Row>) -> Seq<Row>
    decreases inserted.len(),
{
    if inserted.len() == 0 {
        Seq::empty()
    } else {
        let rest = stored_rows(inserted.drop_last());
        if rest.contains(inserted.last()) {
            rest
        } else {
            rest.push(inserted.last())
        }
    }
}

/// The rows of the search index, under its unique constraint on
/// `(name, type, path)`.
pub struct SearchIndex {
    rows: Vec<IndexEntry>,
    inserted: Ghost<Seq<Row>>,
}

impl SearchIndex {
    /// The rows held, in the order they were first inserted.
    pub closed spec fn rows(&self) -> Seq<Row> {
        entries_view(self.rows@)
    }

    /// Every row handed to `insert_or_ignore`, in order.
    pub closed spec fn inserted(&self) -> Seq<Row> {
        self.inserted@
    }

    /// The rows held are those that the unique constraint lets through.
    pub open spec fn wf(&self) -> bool {
        self.rows() == stored_rows(self.inserted())
    }

    /// An empty index.
    pub fn new() -> (r: SearchIndex)
        ensures
            r.wf(),
            r.inserted() == Seq::<Row>::empty(),
            r.rows() == Seq::<Row>::empty(),
    {
        let r = SearchIndex { rows: Vec::new(), inserted: Ghost(Seq::empty()) };
        assert(entries_view(r.rows@) =~= Seq::<Row>::empty());
        r
    }

    /// Inserts a row unless an equal one is held; says whether it was added.
    pub fn insert_or_ignore(&mut self, entry: IndexEntry) -> (added: bool)
        requires
            old(self).wf(),
        ensures
            final(self).wf(),
            final(self).inserted() == old(self).inserted().push(entry@),
            added == !old(self).rows().contains(entry@),
            final(self).rows() == if added {
                old(self).rows().push(entry@)
            } else {
                old(self).rows()
            },
    {
        let ghost before = self.inserted@;
        let ghost rows_before = entries_view(self.rows@);
        let mut i: usize = 0;
        let mut found = false;
        while i < self.rows.len()
            invariant
                i <= self.rows.len(),
                rows_before == entries_view(self.rows@),
                found <==> exists|j: int| 0 <= j < i && rows_before[j] == entry@,
            decreases self.rows.len() - i,
        {
            let row = &self.rows[i];
            if row.name == entry.name && row.entry_type == entry.entry_type && row.path
                == entry.path {
                assert(rows_before[i as int] == entry@);
                found = true;
            }
            i += 1;
        }
        proof {
            assert(before.push(entry@).drop_last() =~= before);
            if rows_before.contains(entry@) {
                let j = choose|j: int| 0 <= j < rows_before.len() && rows_before[j] == entry@;
                assert(found);
            }
        }
        self.inserted = Ghost(before.push(entry@));
        if found {
            false
        } else {
            let ghost e = entry@;
            self.rows.push(entry);
            assert(entries_view(self.rows@) =~= rows_before.push(e));
            true
        }
    }

    /// The rows held.
    pub fn into_rows(self) -> (r: Vec<IndexEntry>)
        ensures
            entries_view(r@) == self.rows(),
    {
        self.rows
    }
}

/// Under the unique constraint, the store holds each row that was inserted
/// exactly once, however often and from however many results it came.
pub proof fn stored_rows_are_unique(inserted: Seq<Row>)
    ensures
        stored_rows(inserted).no_duplicates(),
        forall|r: Row| stored_rows(inserted).contains(r) <==> inserted.contains(r),
    decreases inserted.len(),
{
    if inserted.len() > 0 {
        let init = inserted.drop_last();
        stored_rows_are_unique(init);
        let rest = stored_rows(init);
        assert forall|r: Row| stored_rows(inserted).contains(r) <==> inserted.contains(r) by {
            if inserted.contains(r) {
                let k = choose|k: int| 0 <= k < inserted.len() && inserted[k] == r;
                if k < init.len() {
                    assert(init[k] == r);
                    assert(init.contains(r));
                }
            }
            if init.contains(r) {
                let k = choose|k: int| 0 <= k < init.len() && init[k] == r;
                assert(inserted[k] == r);
            }
            if stored_rows(inserted).contains(r) && r != inserted.last() {
                if !rest.contains(inserted.last()) {
                    let k = choose|k: int| 0 <= k < rest.len() + 1 && rest.push(inserted.last())[k] == r;
                    assert(rest[k] == r);
                }
            }
            assert(inserted[inserted.len() - 1] == inserted.last());
            if rest.contains(r) && !rest.contains(inserted.last()) {
                let k = choose|k: int| 0 <= k < rest.len() && rest[k] == r;
                assert(rest.push(inserted.last())[k] == r);
            }
            if r == inserted.last() && !rest.contains(inserted.last()) {
                assert(rest.push(inserted.last())[rest.len() as int] == r);
            }
        }
        if !rest.contains(inserted.last()) {
            let s = rest.push(inserted.last());
            assert forall|i: int, j: int| 0 <= i < s.len() && 0 <= j < s.len() && i != j implies s[i]
                != s[j] by {
                if i < rest.len() && j < rest.len() {
                } else if i == rest.len() {
                    assert(rest[j] == s[j]);
                } else {
                    assert(rest[i] == s[i]);
                }
            }
        }
    }
}

/// A row that two results both yield is held exactly once after both are
/// inserted.
pub proof fn shared_row_is_stored_once(first: Seq<Row>, second: Seq<Row>, row: Row)
    requires
        first.contains(row),
        second.contains(row),
    ensures
        exists|j: int|
            #![trigger stored_rows(first + second)[j]]
            0 <= j < stored_rows(first + second).len() && stored_rows(first + second)[j] == row
                && forall|k: int|
                0 <= k < stored_rows(first + second).len() && stored_rows(first + second)[k] == row
                    ==> k == j,
{
    let all = first + second;
    let k = choose|k: int| 0 <= k < first.len() && first[k] == row;
    assert(all[k] == row);
    assert(all.contains(row));
    stored_rows_are_unique(all);
    let s = stored_rows(all);
    assert(s.contains(row));
    let j = choose|j: int| 0 <= j < s.len() && s[j] == row;
    assert(forall|k: int| 0 <= k < s.len() && s[k] == row ==> k == j);
}

} // verus!
