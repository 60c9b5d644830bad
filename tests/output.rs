use agda_index::bundle::{BundleAction, BundleError, BundleEvent, BundleWriter};
use agda_index::cmdline::OutputFormat;
use agda_index::docset::{DocsetError, DocsetOutput, IndexEntry, SearchIndex};
use agda_index::json::index_item;
use agda_index::module::{Item as Definition, Module};
use agda_index::pipeline::{Collector, Item, ProcessError};
use agda_index::plain::{entry_line, PlainOutput};
use agda_index::role::SemanticRole;

fn definition(id: &str, identifier: &str) -> Definition {
    Definition { id: String::from(id), identifier: String::from(identifier), role: SemanticRole::Function }
}

fn result(path: &str, name: &str, defs: Vec<Definition>) -> Item {
    Item { source_path: String::from(path), module: Module { name: String::from(name), items: defs } }
}

fn docset() -> DocsetOutput {
    DocsetOutput::new(
        String::from("agda"),
        String::from("/out"),
        String::from("/in"),
        String::from("index.html"),
    )
}

fn triples(entries: &[IndexEntry]) -> Vec<(String, String, String)> {
    entries.iter().map(|e| (e.name.clone(), e.entry_type.clone(), e.path.clone())).collect()
}

#[test]
fn collector_gathers_every_result_in_any_order() {
    let mut c = Collector::new();
    for _ in 0..3 {
        c.dispatch();
    }
    assert_eq!(c.pending(), 3);
    c.settle(Ok(result("/in/C.html", "C", vec![])));
    c.settle(Ok(result("/in/A.html", "A", vec![])));
    assert_eq!(c.pending(), 1);
    c.settle(Ok(result("/in/B.html", "B", vec![])));
    assert_eq!(c.pending(), 0);
    let names: Vec<String> = c.finish().into_items().into_iter().map(|i| i.module.name).collect();
    assert_eq!(names, vec!["C", "A", "B"]);
}

#[test]
fn collector_drops_failures() {
    let mut c = Collector::new();
    c.dispatch();
    c.dispatch();
    c.settle(Err(ProcessError::NoLocation));
    c.settle(Ok(result("/in/A.html", "A", vec![])));
    assert_eq!(c.finish().into_items().len(), 1);
}

#[test]
fn bundle_paths() {
    let d = docset();
    assert_eq!(d.docset_dir(), "/out/agda.docset");
    assert_eq!(d.documents_dir(), "/out/agda.docset/Contents/Resources/Documents/");
    assert_eq!(d.index_database_path(), "/out/agda.docset/Contents/Resources/docSet.dsidx");
    assert_eq!(d.info_plist_path(), "/out/agda.docset/Contents/Info.plist");
    assert_eq!(d.icon_path(), "/out/agda.docset/icon.svg");
    assert_eq!(d.stylesheet_source(), "/in/Agda.css");
    assert_eq!(d.stylesheet_target(), "/out/agda.docset/Contents/Resources/Documents/Agda.css");
}

#[test]
fn existing_bundle_is_refused() {
    let d = docset();
    assert_eq!(d.check_exists(true), Err(DocsetError::AlreadyExists));
    assert_eq!(d.check_exists(false), Ok(()));
}

#[test]
fn metadata_names_the_bundle_and_main_page() {
    let text = docset().metadata();
    assert!(text.starts_with("<?xml version=\"1.0\" encoding=\"UTF-8\"?>\n"));
    assert!(text.contains("<key>CFBundleName</key>\n    <string>agda</string>"));
    assert!(text.contains("<key>dashIndexFilePath</key>\n    <string>index.html</string>"));
    assert!(text.ends_with("</plist>\n"));
}

#[test]
fn module_plan_copies_and_indexes() {
    let item = result("/in/Nat.html", "Nat", vec![definition("12", "zero"), definition("14", "suc")]);
    let plan = docset().plan_module(&item).unwrap();
    assert_eq!(plan.copy_from, "/in/Nat.html");
    assert_eq!(plan.copy_to, "/out/agda.docset/Contents/Resources/Documents/Nat.html");
    let expected = vec![
        (String::from("Nat"), String::from("Module"), String::from("Nat.html")),
        (String::from("Nat.zero"), String::from("Function"), String::from("Nat.html#12")),
        (String::from("Nat.suc"), String::from("Function"), String::from("Nat.html#14")),
    ];
    assert_eq!(triples(&plan.entries), expected);
    let no_name = result("/in/..", "X", vec![]);
    assert_eq!(docset().plan_module(&no_name).unwrap_err(), DocsetError::NoFileName);
}

#[test]
fn identical_rows_are_stored_once() {
    let d = docset();
    let a = d.plan_module(&result("/in/Nat.html", "Nat", vec![definition("12", "zero")])).unwrap();
    let b = d.plan_module(&result("/x/Nat.html", "Nat", vec![definition("12", "zero")])).unwrap();
    let mut index = SearchIndex::new();
    let mut added = 0;
    for e in a.entries.iter().chain(b.entries.iter()) {
        if index.insert_or_ignore(e.clone()) {
            added += 1;
        }
    }
    assert_eq!(added, 2);
    assert_eq!(index.into_rows().len(), 2);
}

#[test]
fn bundle_run_stops_when_target_exists() {
    let (mut w, first) = BundleWriter::start(docset());
    assert!(matches!(first, BundleAction::CheckTarget { ref path } if path == "/out/agda.docset"));
    let next = w.step(BundleEvent::TargetChecked { exists: true });
    assert!(matches!(next, BundleAction::Stop { outcome: Err(BundleError::AlreadyExists) }));
}

#[test]
fn bundle_run_stores_each_row_once_and_commits() {
    let (mut w, _) = BundleWriter::start(docset());
    let prepare = w.step(BundleEvent::TargetChecked { exists: false });
    match prepare {
        BundleAction::Prepare { documents_dir, index_path, .. } => {
            assert_eq!(documents_dir, "/out/agda.docset/Contents/Resources/Documents/");
            assert_eq!(index_path, "/out/agda.docset/Contents/Resources/docSet.dsidx");
        }
        other => panic!("unexpected {:?}", other),
    }
    assert!(matches!(w.step(BundleEvent::Done), BundleAction::CopyStylesheet { .. }));
    assert!(matches!(w.step(BundleEvent::Failed), BundleAction::NextResult));
    let item = || result("/in/Nat.html", "Nat", vec![definition("12", "zero")]);
    match w.step(BundleEvent::Result { item: item() }) {
        BundleAction::Store { plan } => assert_eq!(plan.entries.len(), 2),
        other => panic!("unexpected {:?}", other),
    }
    assert!(matches!(w.step(BundleEvent::Done), BundleAction::NextResult));
    match w.step(BundleEvent::Result { item: item() }) {
        BundleAction::Store { plan } => assert!(plan.entries.is_empty()),
        other => panic!("unexpected {:?}", other),
    }
    assert!(matches!(w.step(BundleEvent::Done), BundleAction::NextResult));
    assert!(matches!(w.step(BundleEvent::NoMoreResults), BundleAction::Commit));
    assert!(matches!(w.step(BundleEvent::Done), BundleAction::Stop { outcome: Ok(()) }));
}

#[test]
fn bundle_run_stops_on_failure() {
    let (mut w, _) = BundleWriter::start(docset());
    w.step(BundleEvent::TargetChecked { exists: false });
    let next = w.step(BundleEvent::Failed);
    assert!(matches!(next, BundleAction::Stop { outcome: Err(BundleError::Failed) }));
}

#[test]
fn plain_line_format() {
    let line = entry_line("docs/Nat.html", "Nat", &definition("12", "zero"));
    assert_eq!(line, "file:///docs/Nat.html#12 Nat.zero\n");
    let out = PlainOutput::new(Vec::<u8>::new());
    assert!(out.writer.is_empty());
}

#[test]
fn json_href_format() {
    let item = index_item("Nat", &definition("12", "zero"));
    assert_eq!(item.module, "Nat");
    assert_eq!(item.identifier, "zero");
    assert_eq!(item.href, "Nat.html#12");
}

#[test]
fn output_format_names() {
    assert_eq!(OutputFormat::from_name("plain"), Some(OutputFormat::Plain));
    assert_eq!(OutputFormat::from_name("json"), Some(OutputFormat::Json));
    assert_eq!(OutputFormat::from_name("docset"), Some(OutputFormat::Docset));
    assert_eq!(OutputFormat::from_name("xml"), None);
    assert!("xml".parse::<OutputFormat>().is_err());
    assert_eq!("json".parse::<OutputFormat>(), Ok(OutputFormat::Json));
}
