use agda_index::links::{resolve_link, LinkError};
use agda_index::module::{ExtractError, ItemError, MarkedElement, ModuleParser};
use agda_index::pipeline::{process_module, ProcessError};
use agda_index::role::{classify, SemanticRole};

fn page(title: Option<&str>, body: &str) -> String {
    let head = match title {
        Some(t) => format!("<head><title>{}</title></head>", t),
        None => String::from("<head></head>"),
    };
    format!("<!DOCTYPE html><html>{}<body><pre class=\"Agda\">{}</pre></body></html>", head, body)
}

fn nat_parser() -> ModuleParser {
    ModuleParser::new(String::from("file:///docs/Nat.html"))
}

fn ids(parser: &ModuleParser, content: &str) -> Vec<(String, String)> {
    let module = parser.parse_module(content).unwrap();
    module.items.into_iter().map(|i| (i.id, i.identifier)).collect()
}

#[test]
fn self_link_kept_and_foreign_link_dropped() {
    let content = page(
        Some("Nat"),
        "<a id=\"12\" href=\"#12\" class=\"Function\">zero</a> \
         <a id=\"30\" href=\"Fin.html#5\" class=\"Function\">badRef</a>",
    );
    let module = nat_parser().parse_module(&content).unwrap();
    assert_eq!(module.name, "Nat");
    assert_eq!(module.items.len(), 1);
    assert_eq!(module.items[0].id, "12");
    assert_eq!(module.items[0].identifier, "zero");
}

#[test]
fn unlinked_anchor_kept() {
    let content = page(Some("Nat"), "<a id=\"7\" class=\"Function\">Y</a>");
    assert_eq!(ids(&nat_parser(), &content), vec![(String::from("7"), String::from("Y"))]);
}

#[test]
fn link_to_other_id_in_same_module_dropped() {
    let content = page(Some("Nat"), "<a id=\"12\" href=\"Nat.html#13\" class=\"Function\">zero</a>");
    assert!(ids(&nat_parser(), &content).is_empty());
}

#[test]
fn full_file_link_to_own_id_kept() {
    let content = page(Some("Nat"), "<a id=\"12\" href=\"Nat.html#12\" class=\"Datatype\">ℕ</a>");
    assert_eq!(ids(&nat_parser(), &content), vec![(String::from("12"), String::from("ℕ"))]);
}

#[test]
fn missing_title_is_no_module_name() {
    let content = page(None, "<a id=\"7\" class=\"Function\">Y</a>");
    assert!(matches!(nat_parser().parse_module(&content), Err(ExtractError::NoModuleName)));
    assert!(matches!(
        process_module("/docs/Nat.html", &content),
        Err(ProcessError::Extract(ExtractError::NoModuleName))
    ));
}

#[test]
fn items_keep_document_order() {
    let content = page(
        Some("Nat"),
        "<a id=\"3\" class=\"Record\">C</a> <a id=\"1\" href=\"#1\" class=\"Field\">A</a> \
         <a id=\"2\" class=\"InductiveConstructor\">B</a>",
    );
    let got: Vec<String> = ids(&nat_parser(), &content).into_iter().map(|p| p.0).collect();
    assert_eq!(got, vec!["3", "1", "2"]);
}

#[test]
fn anchors_outside_the_root_or_unmarked_are_ignored() {
    let content = format!(
        "<html><head><title>Nat</title></head><body><a id=\"1\" class=\"Function\">out</a>{}</body></html>",
        "<pre class=\"Agda\"><a id=\"2\" class=\"Symbol\">(</a><a id=\"3\" class=\"Function\">in</a></pre>"
    );
    assert_eq!(ids(&nat_parser(), &content), vec![(String::from("3"), String::from("in"))]);
}

#[test]
fn anchors_without_id_or_text_are_skipped() {
    let content = page(
        Some("Nat"),
        "<a class=\"Function\">noId</a><a id=\"4\" class=\"Function\"></a><a id=\"5\" class=\"Function\">ok</a>",
    );
    assert_eq!(ids(&nat_parser(), &content), vec![(String::from("5"), String::from("ok"))]);
}

#[test]
fn parse_item_reports_each_error() {
    let parser = nat_parser();
    let el = |text: Option<&str>, id: Option<&str>, href: Option<&str>| MarkedElement {
        text: text.map(String::from),
        inner_html: String::new(),
        id: id.map(String::from),
        href: href.map(String::from),
        classes: Some(String::from("Function")),
    };
    assert_eq!(parser.parse_item(&el(None, Some("1"), None), "Nat").unwrap_err(), ItemError::MissingText);
    assert_eq!(parser.parse_item(&el(Some("x"), None, None), "Nat").unwrap_err(), ItemError::MissingId);
    assert_eq!(
        parser.parse_item(&el(Some("x"), Some("1"), Some("Nat.html")), "Nat").unwrap_err(),
        ItemError::Link(LinkError::NoTargetId)
    );
    assert_eq!(
        parser.parse_item(&el(Some("x"), Some("1"), Some("http://[bad")), "Nat").unwrap_err(),
        ItemError::Link(LinkError::InvalidTarget)
    );
    let kept = parser.parse_item(&el(Some("x"), Some("1"), Some("#1")), "Nat").unwrap().unwrap();
    assert_eq!((kept.id.as_str(), kept.identifier.as_str()), ("1", "x"));
    assert!(parser.parse_item(&el(Some("x"), Some("1"), Some("#1")), "Fin").unwrap().is_none());
}

#[test]
fn links_resolve_to_fragment_and_file_stem() {
    let (id, module) = resolve_link("file:///docs/Nat.html", "Fin.html#5").unwrap();
    assert_eq!((id.as_str(), module.as_str()), ("5", "Fin"));
    let (id, module) = resolve_link("file:///docs/Nat.html", "#12").unwrap();
    assert_eq!((id.as_str(), module.as_str()), ("12", "Nat"));
    let (id, module) = resolve_link("file:///docs/Nat.html", "../lib/Data.List.html#9").unwrap();
    assert_eq!((id.as_str(), module.as_str()), ("9", "Data.List"));
    assert_eq!(resolve_link("file:///docs/Nat.html", "Fin.html"), Err(LinkError::NoTargetId));
    assert_eq!(resolve_link("not a url", "#1"), Err(LinkError::InvalidTarget));
}

#[test]
fn parser_from_path_uses_the_file_url() {
    let parser = ModuleParser::from_path("/docs/Nat.html").unwrap();
    assert_eq!(parser.base_url, "file:///docs/Nat.html");
}

#[test]
fn process_module_keeps_the_source_path() {
    let content = page(Some("Nat"), "<a id=\"12\" href=\"Nat.html#12\" class=\"Function\">zero</a>");
    let item = process_module("/docs/Nat.html", &content).unwrap();
    assert_eq!(item.source_path, "/docs/Nat.html");
    assert_eq!(item.module.name, "Nat");
    assert_eq!(item.module.items.len(), 1);
}

#[test]
fn items_carry_their_role() {
    let content = page(
        Some("Nat"),
        "<a id=\"1\" class=\"Datatype\">N</a><a id=\"2\" class=\"InductiveConstructor\">z</a>\
         <a id=\"3\" class=\"Field\">f</a>",
    );
    let module = nat_parser().parse_module(&content).unwrap();
    let roles: Vec<SemanticRole> = module.items.iter().map(|i| i.role).collect();
    assert_eq!(roles, vec![SemanticRole::Datatype, SemanticRole::InductiveConstructor, SemanticRole::Field]);
}

#[test]
fn classify_reads_whole_classes() {
    assert_eq!(classify("Function"), Some(SemanticRole::Function));
    assert_eq!(classify("Agda\tRecord  extra"), Some(SemanticRole::Record));
    assert_eq!(classify("CoinductiveConstructor"), Some(SemanticRole::CoinductiveConstructor));
    assert_eq!(classify("Functional Fieldset"), None);
    assert_eq!(classify(""), None);
}

#[test]
fn element_without_role_is_reported() {
    let parser = nat_parser();
    let el = MarkedElement {
        text: Some(String::from("x")),
        inner_html: String::from("x"),
        id: Some(String::from("1")),
        href: None,
        classes: Some(String::from("Symbol")),
    };
    assert_eq!(parser.parse_item(&el, "Nat").unwrap_err(), ItemError::NoRole);
}
