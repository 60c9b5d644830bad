//! What a run is asked to do.
use vstd::prelude::*;

verus! {

/// The output that a run produces.
#[derive(Debug, Clone, Copy, PartialEq, Eq, Structural)]
pub enum OutputFormat {
    /// One line of text per definition.
    Plain,
    /// A JSON array of definitions.
    Json,
    /// A documentation bundle on disk.
    Docset,
}

impl OutputFormat {
    /// The format named `plain`, `json` or `docset`.
    pub fn from_name(name: &str) -> (r: Option<OutputFormat>)
        ensures
            r == Some(OutputFormat::Plain) <==> name@ == "plain"@,
            r == Some(OutputFormat::Json) <==> name@ == "json"@,
            r == Some(OutputFormat::Docset) <==> name@ == "docset"@,
    {
        proof {
            reveal_strlit("plain");
            reveal_strlit("json");
            reveal_strlit("docset");
            assert("plain"@.len() != "json"@.len());
            assert("plain"@.len() != "docset"@.len());
            assert("json"@.len() != "docset"@.len());
        }
        let name = String::from_str(name);
        if name == String::from_str("plain") {
            Some(OutputFormat::Plain)
        } else if name == String::from_str("json") {
            Some(OutputFormat::Json)
        } else if name == String::from_str("docset") {
            Some(OutputFormat::Docset)
        } else {
            None
        }
    }
}

impl std::str::FromStr for OutputFormat {
    type Err = &'static str;

    fn from_str(fmt: &str) -> Result<Self, Self::Err> {
        match OutputFormat::from_name(fmt) {
            Some(f) => Ok(f),
            None => Err("expected one of 'plain', 'json' or 'docset'"),
        }
    }
}

/// The options of a run.
#[derive(Debug, Clone)]
pub struct CommandLine {
    pub output_format: OutputFormat,
    /// The library's name, which names the bundle.
    pub library_name: String,
    /// The main page, relative to `html_dir`.
    pub main_page: String,
    /// The directory of the rendered modules.
    pub html_dir: String,
}

} // verus!
