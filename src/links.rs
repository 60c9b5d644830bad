//! Link targets and file paths, held as text.
//!
//! A URL is held as its serialization, the form that `url::Url` prints and
//! parses back; a path is held as UTF-8 text.
use vstd::prelude::*;

verus! {

/// What `url::Url::parse` makes of a text, serialized again.
pub uninterp spec fn parsed_url(text: Seq<char>) -> Option<Seq<char>>;

/// What `url::Url::join` makes of a reference resolved against a base URL.
pub uninterp spec fn joined_url(base: Seq<char>, reference: Seq<char>) -> Option<Seq<char>>;

/// The fragment of a URL, as `url::Url::fragment` gives it.
pub uninterp spec fn url_fragment_of(url: Seq<char>) -> Option<Seq<char>>;

/// The path of a URL, as `url::Url::path` gives it.
pub uninterp spec fn url_path_of(url: Seq<char>) -> Option<Seq<char>>;

/// The file stem of a path, as `std::path::Path::file_stem` gives it.
pub uninterp spec fn file_stem_of(path: Seq<char>) -> Option<Seq<char>>;

/// The final component of a path, as `std::path::Path::file_name` gives it.
pub uninterp spec fn file_name_of(path: Seq<char>) -> Option<Seq<char>>;

/// Two paths joined, as `std::path::Path::join` joins them.
pub uninterp spec fn joined_path(base: Seq<char>, rest: Seq<char>) -> Seq<char>;

/// Relies on `url::Url::parse`: the text parsed as an absolute URL, and
/// serialized again; `None` where it does not parse.
#[verifier::external_body]
pub(crate) fn parse_url(text: &str) -> (r: Option<String>)
    ensures
        r matches Some(u) ==> parsed_url(text@) == Some(u@),
        r is None ==> parsed_url(text@) is None,
{
    url::Url::parse(text).ok().map(String::from)
}

/// Relies on `url::Url::parse`, to read `base` back, and `url::Url::join`:
/// `reference` resolved against `base`, serialized; `None` where `base` is no
/// URL or the reference does not parse.
#[verifier::external_body]
pub(crate) fn join_url(base: &str, reference: &str) -> (r: Option<String>)
    ensures
        r matches Some(u) ==> joined_url(base@, reference@) == Some(u@),
        r is None ==> joined_url(base@, reference@) is None,
{
    url::Url::parse(base).ok()?.join(reference).ok().map(String::from)
}

/// Relies on `url::Url::parse`, to read the URL back, and `url::Url::fragment`:
/// the part after `#`, if the URL has one; `None` also where the text is no URL.
#[verifier::external_body]
pub(crate) fn url_fragment(url: &str) -> (r: Option<String>)
    ensures
        r matches Some(f) ==> url_fragment_of(url@) == Some(f@),
        r is None ==> url_fragment_of(url@) is None,
{
    url::Url::parse(url).ok()?.fragment().map(String::from)
}

/// Relies on `url::Url::parse`, to read the URL back, and `url::Url::path`: the
/// path of the URL; `None` where the text is no URL.
#[verifier::external_body]
pub(crate) fn url_path(url: &str) -> (r: Option<String>)
    ensures
        r matches Some(p) ==> url_path_of(url@) == Some(p@),
        r is None ==> url_path_of(url@) is None,
{
    url::Url::parse(url).ok().map(|u| String::from(u.path()))
}

/// Relies on `std::path::Path::file_stem`: the file name without its last
/// extension.
#[verifier::external_body]
pub(crate) fn file_stem(path: &str) -> (r: Option<String>)
    ensures
        r matches Some(s) ==> file_stem_of(path@) == Some(s@),
        r is None ==> file_stem_of(path@) is None,
{
    std::path::Path::new(path).file_stem().and_then(|s| s.to_str()).map(String::from)
}

/// Relies on `std::path::Path::file_name`: the final component of the path;
/// `None` where there is none, as for a path that ends in `..`.
#[verifier::external_body]
pub(crate) fn file_name(path: &str) -> (r: Option<String>)
    ensures
        r matches Some(s) ==> file_name_of(path@) == Some(s@),
        r is None ==> file_name_of(path@) is None,
{
    std::path::Path::new(path).file_name().and_then(|s| s.to_str()).map(String::from)
}

/// Relies on `std::path::Path::join`: `rest` appended to `base`, or `rest`
/// alone where it is absolute.
#[verifier::external_body]
pub(crate) fn join_path(base: &str, rest: &str) -> (r: String)
    ensures
        r@ == joined_path(base@, rest@),
{
    std::path::Path::new(base).join(rest).to_string_lossy().into_owned()
}

/// Where an anchor's link points: the target's id and module.
pub open spec fn link_target(base: Seq<char>, href: Seq<char>) -> Result<
    (Seq<char>, Seq<char>),
    LinkError,
> {
    match joined_url(base, href) {
        None => Err(LinkError::InvalidTarget),
        Some(target) => match url_fragment_of(target) {
            None => Err(LinkError::NoTargetId),
            Some(id) => match url_path_of(target) {
                None => Err(LinkError::InvalidTarget),
                Some(path) => match file_stem_of(path) {
                    None => Err(LinkError::NoFileStem),
                    Some(stem) => Ok((id, stem)),
                },
            },
        },
    }
}

/// Why a link target could not be resolved.
#[derive(Debug, Clone, Copy, PartialEq, Eq, Structural)]
pub enum LinkError {
    /// The link does not resolve to a URL against the document's location.
    InvalidTarget,
    /// The resolved URL has no fragment to name the target.
    NoTargetId,
    /// The resolved path has no file stem to name the target's module.
    NoFileStem,
}

/// Resolves `href` against the document location `base`, and returns the
/// target's id (the fragment) and module (the file stem of the resolved path).
pub fn resolve_link(base: &str, href: &str) -> (r: Result<(String, String), LinkError>)
    ensures
        r matches Ok((id, module)) ==> link_target(base@, href@) == Ok::<_, LinkError>((id@, module@)),
        r matches Err(e) ==> link_target(base@, href@) == Err::<(Seq<char>, Seq<char>), _>(e),
{
    let target = match join_url(base, href) {
        Some(t) => t,
        None => return Err(LinkError::InvalidTarget),
    };
    let id = match url_fragment(target.as_str()) {
        Some(f) => f,
        None => return Err(LinkError::NoTargetId),
    };
    let path = match url_path(target.as_str()) {
        Some(p) => p,
        None => return Err(LinkError::InvalidTarget),
    };
    match file_stem(path.as_str()) {
        Some(stem) => Ok((id, stem)),
        None => Err(LinkError::NoFileStem),
    }
}

} // verus!
