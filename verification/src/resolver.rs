//! Module-specifier resolution.
//!
//! A specifier is resolved to a canonical absolute URL in three tiers:
//! a string that is already an absolute filesystem path or an absolute URL
//! stands on its own; with a base (import-statement context) a specifier must
//! begin with `/`, `./` or `../` and is joined against the base under the
//! standard URL join rules; without a base (command-line context) a bare
//! relative string is additionally accepted and resolved against the current
//! working directory, which the caller supplies.

use vstd::prelude::*;
use vstd::string::*;

verus! {

/// The serialization of `url::Url::parse` on `s`: `None` when parsing fails.
pub uninterp spec fn url_parse(s: Seq<char>) -> Option<Seq<char>>;

/// The serialization of joining `rel` against the URL parsed from `base`:
/// `None` when the base does not parse or the join fails.
pub uninterp spec fn url_join(base: Seq<char>, rel: Seq<char>) -> Option<Seq<char>>;

/// Relies on url::Url::parse and url::Url::as_str: the parse of a URL string
/// is a function of that string alone, `as_str` is the parsed URL's canonical
/// serialization, and (an invariant of the url crate, checked by its own
/// `check_invariants`) that serialization reparses to itself.
#[verifier::external_body]
fn parse_url(s: &str) -> (r: Option<String>)
    ensures
        r is Some <==> url_parse(s@) is Some,
        r matches Some(u) ==> url_parse(s@) == Some(u@) && url_parse(u@) == Some(u@),
{
    match url::Url::parse(s) {
        Ok(u) => Some(u.as_str().to_owned()),
        Err(_) => None,
    }
}

/// Relies on url::Url::parse, url::Url::join and url::Url::as_str: joining
/// `rel` against the URL parsed from `base` is a function of the two strings
/// alone; the joined URL's serialization reparses to itself (an invariant of
/// the url crate, checked by its own `check_invariants`).
#[verifier::external_body]
fn join_url(base: &str, rel: &str) -> (r: Option<String>)
    ensures
        r is Some <==> url_join(base@, rel@) is Some,
        r matches Some(u) ==> url_join(base@, rel@) == Some(u@) && url_parse(u@) == Some(u@),
{
    match url::Url::parse(base) {
        Ok(b) => match b.join(rel) {
            Ok(u) => Some(u.as_str().to_owned()),
            Err(_) => None,
        },
        Err(_) => None,
    }
}

#[verifier::external_type_specification]
#[verifier::external_body]
pub struct ExUrl(url::Url);

/// Canonical absolute location of loadable source, immutable once produced.
/// It holds the serialization of a parsed URL, so it is always absolute.
#[derive(Clone, Debug)]
pub struct ModuleSpecifier {
    url: String,
}

impl View for ModuleSpecifier {
    type V = Seq<char>;

    closed spec fn view(&self) -> Seq<char> {
        self.url@
    }
}

/// Why a specifier could not be resolved.
#[derive(Copy, Clone, Debug, PartialEq, Eq, Structural)]
pub enum ResolveErrorKind {
    /// The specifier (or the joined result) is not a parseable URL.
    InvalidUrl,
    /// In import context the specifier is bare: it begins with none of `/`,
    /// `./` or `../`, and package-style names are unsupported at this layer.
    ImportPrefixMissing,
}

/// A resolution failure, carrying the offending specifier (and base, if any)
/// for diagnostics.
#[derive(Clone, Debug)]
pub struct ResolveError {
    pub kind: ResolveErrorKind,
    pub specifier: String,
    pub base: Option<String>,
}

/// An absolute filesystem path: rooted at `/`, or a drive-letter path such as
/// `C:/` or `C:\`.
pub open spec fn is_path_absolute(s: Seq<char>) -> bool {
    ||| (s.len() > 0 && s[0] == '/')
    ||| is_drive_letter_path(s)
}

/// A drive-letter absolute path: an ASCII letter, `:`, then `/` or `\`.
pub open spec fn is_drive_letter_path(s: Seq<char>) -> bool {
    &&& s.len() >= 3
    &&& is_ascii_letter(s[0])
    &&& s[1] == ':'
    &&& (s[2] == '/' || s[2] == '\\')
}

pub open spec fn is_ascii_letter(c: char) -> bool {
    ||| (65 <= c as u32 && c as u32 <= 90)
    ||| (97 <= c as u32 && c as u32 <= 122)
}

/// Begins with `/`, `./` or `../`: the only shapes accepted in import
/// (base-relative) context.
pub open spec fn has_relative_prefix(s: Seq<char>) -> bool {
    ||| (s.len() >= 1 && s[0] == '/')
    ||| (s.len() >= 2 && s[0] == '.' && s[1] == '/')
    ||| (s.len() >= 3 && s[0] == '.' && s[1] == '.' && s[2] == '/')
}

/// The `file:` URL string for an absolute filesystem path, before URL
/// parsing normalizes separators, dot segments and percent-encoding.
pub open spec fn spec_file_url(path: Seq<char>) -> Seq<char> {
    if path.len() > 0 && path[0] == '/' {
        "file://"@ + path
    } else {
        "file:///"@ + path
    }
}

/// Resolution of a specifier that must stand on its own: an absolute
/// filesystem path becomes a `file:` URL; anything else must parse as a URL
/// with an explicit scheme.
pub open spec fn spec_resolve_absolute(s: Seq<char>) -> Option<Seq<char>> {
    if is_path_absolute(s) {
        url_parse(spec_file_url(s))
    } else {
        url_parse(s)
    }
}

/// Resolution in import context, against a base URL.
pub open spec fn spec_resolve(specifier: Seq<char>, base: Seq<char>) -> Result<
    Seq<char>,
    ResolveErrorKind,
> {
    if spec_resolve_absolute(specifier) is Some {
        Ok(spec_resolve_absolute(specifier).unwrap())
    } else if !has_relative_prefix(specifier) {
        Err(ResolveErrorKind::ImportPrefixMissing)
    } else {
        match url_join(base, specifier) {
            Some(u) => Ok(u),
            None => Err(ResolveErrorKind::InvalidUrl),
        }
    }
}

/// Resolution in command-line context: a bare relative string is accepted
/// and joined against the working directory's `file:` URL under the standard
/// URL join rules, so dot segments collapse, backslashes act as path
/// separators, and a root-relative specifier resolves against the
/// directory's root (keeping a drive letter).
pub open spec fn spec_resolve_from_cwd(specifier: Seq<char>, cwd: Seq<char>) -> Option<Seq<char>> {
    if spec_resolve_absolute(specifier) is Some {
        spec_resolve_absolute(specifier)
    } else {
        url_join(spec_file_url(cwd + "/"@), specifier)
    }
}

fn char_at(s: &str, i: usize) -> (c: char)
    requires
        i < s@.len(),
    ensures
        c == s@[i as int],
{
    s.get_char(i)
}

fn path_is_absolute(s: &str) -> (b: bool)
    ensures
        b == is_path_absolute(s@),
{
    let n = s.unicode_len();
    if n > 0 && char_at(s, 0) == '/' {
        return true;
    }
    if n >= 3 {
        let c0 = char_at(s, 0) as u32;
        let letter = (65 <= c0 && c0 <= 90) || (97 <= c0 && c0 <= 122);
        letter && char_at(s, 1) == ':' && (char_at(s, 2) == '/' || char_at(s, 2) == '\\')
    } else {
        false
    }
}

fn relative_prefix(s: &str) -> (b: bool)
    ensures
        b == has_relative_prefix(s@),
{
    let n = s.unicode_len();
    if n >= 1 && char_at(s, 0) == '/' {
        true
    } else if n >= 2 && char_at(s, 0) == '.' && char_at(s, 1) == '/' {
        true
    } else if n >= 3 && char_at(s, 0) == '.' && char_at(s, 1) == '.' && char_at(s, 2) == '/' {
        true
    } else {
        false
    }
}

fn file_url_string(path: &str) -> (r: String)
    ensures
        r@ == spec_file_url(path@),
{
    let n = path.unicode_len();
    if n > 0 && char_at(path, 0) == '/' {
        "file://".to_owned().concat(path)
    } else {
        "file:///".to_owned().concat(path)
    }
}

impl ModuleSpecifier {
    /// Produced only from parse results, so the held string reparses to
    /// itself: it is the canonical serialization of an absolute URL.
    pub open spec fn wf(self) -> bool {
        url_parse(self@) == Some(self@)
    }

    /// The canonical URL string.
    pub fn as_str(&self) -> (r: &str)
        ensures
            r@ == self@,
    {
        self.url.as_str()
    }

    /// Relies on url::Url::parse: the held string is a canonical
    /// serialization, so reparsing it recovers the URL value, and it
    /// succeeds exactly when that string parses.
    #[verifier::external_body]
    pub fn to_url(&self) -> (r: Option<url::Url>)
        ensures
            r is Some <==> url_parse(self@) is Some,
    {
        url::Url::parse(&self.url).ok()
    }

    /// Resolves a specifier that must be an absolute filesystem path or a URL
    /// with an explicit scheme; succeeds exactly when `spec_resolve_absolute`
    /// yields a URL.
    pub fn resolve_absolute(specifier: &str) -> (r: Result<ModuleSpecifier, ResolveError>)
        ensures
            match r {
                Ok(m) => spec_resolve_absolute(specifier@) == Some(m@) && m.wf(),
                Err(e) => {
                    &&& spec_resolve_absolute(specifier@) is None
                    &&& e.kind == ResolveErrorKind::InvalidUrl
                    &&& e.specifier@ == specifier@
                    &&& e.base is None
                },
            },
            r is Ok <==> spec_resolve_absolute(specifier@) is Some,
    {
        let parsed: Option<String> = if path_is_absolute(specifier) {
            let file_url = file_url_string(specifier);
            parse_url(file_url.as_str())
        } else {
            parse_url(specifier)
        };
        match parsed {
            Some(u) => Ok(ModuleSpecifier { url: u }),
            None => Err(
                ResolveError {
                    kind: ResolveErrorKind::InvalidUrl,
                    specifier: specifier.to_owned(),
                    base: None,
                },
            ),
        }
    }

    /// Resolves a specifier in import context against `base`: an absolute
    /// specifier stands as-is regardless of the base; otherwise the specifier
    /// must begin with `/`, `./` or `../` and is joined against the base.
    /// Fails exactly when `spec_resolve` fails, and the error carries the
    /// offending specifier and base.
    pub fn resolve(specifier: &str, base: &str) -> (r: Result<ModuleSpecifier, ResolveError>)
        ensures
            match r {
                Ok(m) => spec_resolve(specifier@, base@) == Ok::<Seq<char>, ResolveErrorKind>(m@)
                    && m.wf(),
                Err(e) => {
                    &&& spec_resolve(specifier@, base@) == Err::<Seq<char>, ResolveErrorKind>(
                        e.kind,
                    )
                    &&& e.specifier@ == specifier@
                    &&& e.base matches Some(b) && b@ == base@
                },
            },
    {
        match Self::resolve_absolute(specifier) {
            Ok(m) => Ok(m),
            Err(_) => {
                if !relative_prefix(specifier) {
                    return Err(
                        ResolveError {
                            kind: ResolveErrorKind::ImportPrefixMissing,
                            specifier: specifier.to_owned(),
                            base: Some(base.to_owned()),
                        },
                    );
                }
                match join_url(base, specifier) {
                    Some(u) => Ok(ModuleSpecifier { url: u }),
                    None => Err(
                        ResolveError {
                            kind: ResolveErrorKind::InvalidUrl,
                            specifier: specifier.to_owned(),
                            base: Some(base.to_owned()),
                        },
                    ),
                }
            },
        }
    }

    /// Resolves a command-line specifier: an absolute path or URL stands
    /// as-is; anything else, bare strings included, is joined against the
    /// working directory `cwd` (an absolute path supplied by the embedder)
    /// as a `file:` URL, without symlink resolution. Backslash separators
    /// are recognized here, in the command-line path, and nowhere else.
    pub fn resolve_from_cwd(specifier: &str, cwd: &str) -> (r: Result<
        ModuleSpecifier,
        ResolveError,
    >)
        requires
            is_path_absolute(cwd@),
        ensures
            match r {
                Ok(m) => spec_resolve_from_cwd(specifier@, cwd@) == Some(m@) && m.wf(),
                Err(e) => {
                    &&& spec_resolve_from_cwd(specifier@, cwd@) is None
                    &&& e.kind == ResolveErrorKind::InvalidUrl
                    &&& e.specifier@ == specifier@
                    &&& e.base is None
                },
            },
            r is Ok <==> spec_resolve_from_cwd(specifier@, cwd@) is Some,
    {
        match Self::resolve_absolute(specifier) {
            Ok(m) => Ok(m),
            Err(_) => {
                let dir = cwd.to_owned().concat("/");
                let dir_url = file_url_string(dir.as_str());
                match join_url(dir_url.as_str(), specifier) {
                    Some(u) => Ok(ModuleSpecifier { url: u }),
                    None => Err(
                        ResolveError {
                            kind: ResolveErrorKind::InvalidUrl,
                            specifier: specifier.to_owned(),
                            base: None,
                        },
                    ),
                }
            },
        }
    }
}

/// An absolute specifier resolves the same way against every base.
pub proof fn lemma_absolute_ignores_base(specifier: Seq<char>, base1: Seq<char>, base2: Seq<char>)
    requires
        spec_resolve_absolute(specifier) is Some,
    ensures
        spec_resolve(specifier, base1) == spec_resolve(specifier, base2),
{
}

} // verus!
