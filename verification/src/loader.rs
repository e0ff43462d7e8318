//! The sandboxed module loader.
//!
//! The loader is the only bridge between the isolate and source code on
//! disk. It rejects remote specifiers outright, resolves the rest to
//! `file://` URLs, and approves a resolved path only when its canonical form
//! lies inside the allowed directory and its extension is `.js` or `.mjs`.

use vstd::prelude::*;

use crate::text::str_starts_with;

verus! {

/// Index of the first character of the final path component of `p`
/// (the character right after the last `/`, or 0 when `p` has none).
pub open spec fn comp_start(p: Seq<char>) -> int
    decreases p.len(),
{
    if p.len() == 0 {
        0
    } else if p[p.len() - 1] == '/' {
        p.len() as int
    } else {
        comp_start(p.take(p.len() - 1))
    }
}

/// `p` names a file whose extension is exactly `e` (the part of the final
/// component after its last dot, with a non-empty stem before the dot).
pub open spec fn has_extension(p: Seq<char>, e: Seq<char>) -> bool {
    p.len() > e.len() + 1 && p.subrange(p.len() - e.len() - 1, p.len() as int) == seq!['.'] + e
        && p.len() - e.len() - 1 > comp_start(p)
}

/// The loader accepts only these two extensions.
pub open spec fn ext_allowed(p: Seq<char>) -> bool {
    has_extension(p, "js"@) || has_extension(p, "mjs"@)
}

/// `p` lies within the directory `dir`, on component boundaries.
/// Both are expected in canonical form: absolute, no trailing slash
/// (the filesystem root being the one exception).
pub open spec fn path_within(p: Seq<char>, dir: Seq<char>) -> bool {
    dir.is_prefix_of(p) && (dir == seq!['/'] || p.len() == dir.len() || p[dir.len() as int]
        == '/')
}

/// Extension: a path the loader accepts ends in `.js` or `.mjs`.
pub proof fn lemma_ext_allowed_is_suffix(p: Seq<char>)
    requires
        ext_allowed(p),
    ensures
        ".js"@.is_suffix_of(p) || ".mjs"@.is_suffix_of(p),
{
    reveal_strlit(".js");
    reveal_strlit(".mjs");
    reveal_strlit("js");
    reveal_strlit("mjs");
    if has_extension(p, "js"@) {
        assert(p.subrange(p.len() - 3, p.len() as int) =~= ".js"@);
    } else {
        assert(p.subrange(p.len() - 4, p.len() as int) =~= ".mjs"@);
    }
}

/// Specifiers that name remote or inline sources; always rejected.
pub open spec fn is_remote_specifier(s: Seq<char>) -> bool {
    "http://"@.is_prefix_of(s) || "https://"@.is_prefix_of(s) || "data:"@.is_prefix_of(s)
        || "blob:"@.is_prefix_of(s)
}

/// Specifiers resolved against the referrer.
pub open spec fn is_relative_specifier(s: Seq<char>) -> bool {
    "./"@.is_prefix_of(s) || "../"@.is_prefix_of(s)
}

/// Specifiers that are already `file://` URLs.
pub open spec fn is_file_url_specifier(s: Seq<char>) -> bool {
    "file://"@.is_prefix_of(s)
}

/// Specifiers that are absolute filesystem paths.
pub open spec fn is_abs_path_specifier(s: Seq<char>) -> bool {
    "/"@.is_prefix_of(s)
}

/// The normalized serialization of `rel` resolved against the URL `base`,
/// when `base` parses and the resolution succeeds.
/// Named result of `url::Url::parse` followed by `url::Url::join`.
pub uninterp spec fn url_join_of(base: Seq<char>, rel: Seq<char>) -> Option<Seq<char>>;

/// The normalized serialization of the URL `s`, when it parses.
/// Named result of `url::Url::parse`.
pub uninterp spec fn url_parse_of(s: Seq<char>) -> Option<Seq<char>>;

/// The serialization of the `file://` URL naming the filesystem path `p`,
/// when `p` can be so named.
/// Named result of `url::Url::from_file_path`.
pub uninterp spec fn url_from_path_of(p: Seq<char>) -> Option<Seq<char>>;

/// The filesystem path the URL `u` names, when `u` parses, carries the
/// `file` scheme and converts back to a path.
/// Named result of `url::Url::parse` followed by `url::Url::to_file_path`.
pub uninterp spec fn url_to_path_of(u: Seq<char>) -> Option<Seq<char>>;

/// Where a non-remote specifier resolves, before the scheme, containment
/// and extension checks: relative specifiers against the referrer,
/// `file://` specifiers by parsing, absolute paths directly and bare names
/// against the allowed directory, the last two as file URLs.
pub open spec fn resolution_target(
    dir: Seq<char>,
    specifier: Seq<char>,
    referrer: Seq<char>,
) -> Option<Seq<char>> {
    if is_relative_specifier(specifier) {
        url_join_of(referrer, specifier)
    } else if is_file_url_specifier(specifier) {
        url_parse_of(specifier)
    } else if is_abs_path_specifier(specifier) {
        url_from_path_of(specifier)
    } else {
        url_from_path_of(dir + "/"@ + specifier)
    }
}

/// Relies on `url::Url::parse` and `url::Url::join`: resolving a reference
/// against a base URL is a pure function of the two strings.
#[verifier::external_body]
pub(crate) fn url_join(base: &str, rel: &str) -> (r: Option<String>)
    ensures
        match r {
            Some(u) => url_join_of(base@, rel@) == Some(u@),
            None => url_join_of(base@, rel@) is None,
        },
{
    match url::Url::parse(base) {
        Ok(b) => match b.join(rel) {
            Ok(u) => Some(String::from(u.as_str())),
            Err(_) => None,
        },
        Err(_) => None,
    }
}

/// Relies on `url::Url::parse`: parsing and re-serializing a URL is a pure
/// function of the input string.
#[verifier::external_body]
fn url_parse_norm(s: &str) -> (r: Option<String>)
    ensures
        match r {
            Some(u) => url_parse_of(s@) == Some(u@),
            None => url_parse_of(s@) is None,
        },
{
    match url::Url::parse(s) {
        Ok(u) => Some(String::from(u.as_str())),
        Err(_) => None,
    }
}

/// Relies on `url::Url::from_file_path`: a pure function of the path; a
/// URL built from a filesystem path carries the `file` scheme, which
/// serializes with a `file://` prefix.
#[verifier::external_body]
pub(crate) fn url_from_path(p: &str) -> (r: Option<String>)
    ensures
        match r {
            Some(u) => url_from_path_of(p@) == Some(u@) && "file://"@.is_prefix_of(u@),
            None => url_from_path_of(p@) is None,
        },
{
    match url::Url::from_file_path(p) {
        Ok(u) => Some(String::from(u.as_str())),
        Err(()) => None,
    }
}

/// Relies on `url::Url::parse` and `url::Url::to_file_path`: turning a
/// `file://` URL back into a filesystem path is a pure function of the URL
/// text. Callers still re-check the path against the allowed directory.
#[verifier::external_body]
fn url_to_path(u: &str) -> (r: Option<String>)
    ensures
        match r {
            Some(p) => url_to_path_of(u@) == Some(p@),
            None => url_to_path_of(u@) is None,
        },
{
    match url::Url::parse(u) {
        Ok(parsed) => match parsed.to_file_path() {
            Ok(pb) => match pb.into_os_string().into_string() {
                Ok(s) => Some(s),
                Err(_) => None,
            },
            Err(()) => None,
        },
        Err(_) => None,
    }
}

/// Relies on `std::path::Path::canonicalize`: resolves symlinks and `..`
/// against the real filesystem. The result depends on the disk, so nothing
/// is assumed of it; callers check containment on whatever comes back.
#[verifier::external_body]
fn canonicalize_path(p: &str) -> (r: Option<String>)
{
    match std::path::Path::new(p).canonicalize() {
        Ok(pb) => match pb.into_os_string().into_string() {
            Ok(s) => Some(s),
            Err(_) => None,
        },
        Err(_) => None,
    }
}

/// Relies on `std::path::Path::is_dir`: asks the filesystem whether `p`
/// names a directory. The answer depends on the disk.
#[verifier::external_body]
fn path_is_dir(p: &str) -> (r: bool)
{
    std::path::Path::new(p).is_dir()
}

/// Why the loader refused a specifier or a path.
#[derive(Debug)]
pub enum LoaderError {
    /// The allowed directory could not be canonicalized.
    DirNotCanonical(String),
    /// The allowed directory is not a directory.
    NotADirectory,
    /// The specifier names a remote or inline source.
    RemoteForbidden(String),
    /// The referrer is not a valid URL.
    InvalidReferrer(String),
    /// The relative specifier could not be resolved against the referrer.
    ResolveFailed(String),
    /// The `file://` specifier is not a valid URL.
    InvalidFileUrl(String),
    /// The absolute path could not be turned into a URL.
    InvalidAbsolutePath(String),
    /// The bare specifier could not be turned into a URL.
    InvalidBareSpecifier(String),
    /// The resolved URL does not carry the `file` scheme.
    NotFileUrl(String),
    /// The URL could not be converted back to a path.
    NotAPath(String),
    /// The path's canonical form lies outside the allowed directory.
    OutsideAllowedDir(String),
    /// The path failed the containment re-check on load.
    AccessDenied(String),
    /// The path failed the extension re-check on load.
    InvalidExtension(String),
    /// The path's extension is neither `.js` nor `.mjs`.
    BadExtension(String),
}

/// The text of a loader error.
pub open spec fn loader_error_chars(e: LoaderError) -> Seq<char> {
    match e {
        LoaderError::DirNotCanonical(p) => "Failed to canonicalize allowed_dir: "@ + p@,
        LoaderError::NotADirectory => "allowed_dir must be a directory"@,
        LoaderError::RemoteForbidden(s) => "Remote imports are forbidden: "@ + s@,
        LoaderError::InvalidReferrer(s) => "Invalid referrer '"@ + s@ + "'"@,
        LoaderError::ResolveFailed(s) => "Failed to resolve '"@ + s@ + "'"@,
        LoaderError::InvalidFileUrl(s) => "Invalid file URL '"@ + s@ + "'"@,
        LoaderError::InvalidAbsolutePath(s) => "Invalid absolute path: "@ + s@,
        LoaderError::InvalidBareSpecifier(s) => "Invalid bare specifier: "@ + s@,
        LoaderError::NotFileUrl(s) => "Only file:// URLs allowed, got: "@ + s@,
        LoaderError::NotAPath(s) => "Failed to convert URL to path: "@ + s@,
        LoaderError::OutsideAllowedDir(s) => "Access denied: '"@ + s@
            + "' is outside the allowed directory"@,
        LoaderError::AccessDenied(s) => "Access denied: "@ + s@,
        LoaderError::InvalidExtension(s) => "Invalid extension: "@ + s@,
        LoaderError::BadExtension(s) => "Only .js and .mjs files allowed, got: "@ + s@,
    }
}

impl LoaderError {
    /// Render the error as a human-readable message.
    pub fn message(&self) -> (r: String)
        ensures
            r@ == loader_error_chars(*self),
    {
        let mut s = String::new();
        match self {
            LoaderError::DirNotCanonical(p) => {
                s.append("Failed to canonicalize allowed_dir: ");
                s.append(p.as_str());
            },
            LoaderError::NotADirectory => {
                s.append("allowed_dir must be a directory");
            },
            LoaderError::RemoteForbidden(p) => {
                s.append("Remote imports are forbidden: ");
                s.append(p.as_str());
            },
            LoaderError::InvalidReferrer(p) => {
                s.append("Invalid referrer '");
                s.append(p.as_str());
                s.append("'");
            },
            LoaderError::ResolveFailed(p) => {
                s.append("Failed to resolve '");
                s.append(p.as_str());
                s.append("'");
            },
            LoaderError::InvalidFileUrl(p) => {
                s.append("Invalid file URL '");
                s.append(p.as_str());
                s.append("'");
            },
            LoaderError::InvalidAbsolutePath(p) => {
                s.append("Invalid absolute path: ");
                s.append(p.as_str());
            },
            LoaderError::InvalidBareSpecifier(p) => {
                s.append("Invalid bare specifier: ");
                s.append(p.as_str());
            },
            LoaderError::NotFileUrl(p) => {
                s.append("Only file:// URLs allowed, got: ");
                s.append(p.as_str());
            },
            LoaderError::NotAPath(p) => {
                s.append("Failed to convert URL to path: ");
                s.append(p.as_str());
            },
            LoaderError::OutsideAllowedDir(p) => {
                s.append("Access denied: '");
                s.append(p.as_str());
                s.append("' is outside the allowed directory");
            },
            LoaderError::AccessDenied(p) => {
                s.append("Access denied: ");
                s.append(p.as_str());
            },
            LoaderError::InvalidExtension(p) => {
                s.append("Invalid extension: ");
                s.append(p.as_str());
            },
            LoaderError::BadExtension(p) => {
                s.append("Only .js and .mjs files allowed, got: ");
                s.append(p.as_str());
            },
        }
        proof {
            assert(s@ =~= loader_error_chars(*self));
        }
        s
    }
}

/// A specifier the loader has resolved and approved.
#[derive(Debug)]
pub struct ResolvedModule {
    /// The resolved `file://` URL.
    pub url: String,
    /// The filesystem path named by the URL.
    pub path: String,
    /// The canonical form of that path, proven inside the allowed directory.
    pub canonical_path: String,
}

/// A path the loader has approved for reading.
#[derive(Debug)]
pub struct ApprovedModule {
    /// The filesystem path to read.
    pub path: String,
    /// The canonical form of that path, proven inside the allowed directory.
    pub canonical_path: String,
}

/// A module loader that restricts all imports to a single directory.
#[derive(Debug)]
pub struct SandboxedLoader {
    /// The canonical form of the only directory modules may come from.
    pub allowed_dir: String,
}

proof fn lemma_comp_start_range(p: Seq<char>, j: int)
    requires
        0 <= j <= p.len(),
        forall|k: int| j <= k < p.len() ==> p[k] != '/',
        j == 0 || p[j - 1] == '/',
    ensures
        comp_start(p) == j,
    decreases p.len() - j,
{
    if j == p.len() {
        if p.len() == 0 {
        } else {
            assert(p[p.len() - 1] == '/');
        }
    } else {
        assert(p[p.len() - 1] != '/');
        assert(p.take(p.len() - 1).len() == p.len() - 1);
        lemma_comp_start_range(p.take(p.len() - 1), j);
    }
}

/// Find the start of the final path component.
fn find_comp_start(p: &str) -> (r: usize)
    ensures
        r == comp_start(p@),
{
    let len = p.unicode_len();
    let mut j: usize = len;
    while j > 0
        invariant
            len == p@.len(),
            j <= len,
            forall|k: int| j <= k < len ==> p@[k] != '/',
        ensures
            j <= len,
            forall|k: int| j <= k < len ==> p@[k] != '/',
            j == 0 || p@[j - 1] == '/',
        decreases j,
    {
        if p.get_char(j - 1) == '/' {
            break;
        }
        j -= 1;
    }
    proof {
        lemma_comp_start_range(p@, j as int);
    }
    j
}

impl SandboxedLoader {
    /// Create a loader confined to `allowed_dir`, which must exist and be a
    /// directory; it is canonicalized once, here.
    pub fn new(allowed_dir: &str) -> (r: Result<SandboxedLoader, LoaderError>)
    {
        let canonical = match canonicalize_path(allowed_dir) {
            Some(c) => c,
            None => {
                return Err(LoaderError::DirNotCanonical(String::from_str(allowed_dir)));
            },
        };
        if !path_is_dir(canonical.as_str()) {
            return Err(LoaderError::NotADirectory);
        }
        Ok(SandboxedLoader { allowed_dir: canonical })
    }

    /// Whether an already-canonical path lies within the allowed directory.
    pub fn is_path_allowed(&self, canonical_path: &str) -> (r: bool)
        ensures
            r == path_within(canonical_path@, self.allowed_dir@),
    {
        if !str_starts_with(canonical_path, self.allowed_dir.as_str()) {
            return false;
        }
        let dlen = self.allowed_dir.as_str().unicode_len();
        let plen = canonical_path.unicode_len();
        if dlen == 1 && self.allowed_dir.as_str().get_char(0) == '/' {
            assert(self.allowed_dir@ =~= seq!['/']);
            return true;
        }
        assert(self.allowed_dir@ != seq!['/']) by {
            if self.allowed_dir@ == seq!['/'] {
                assert(self.allowed_dir@.len() == 1 && self.allowed_dir@[0] == '/');
            }
        }
        if plen == dlen {
            return true;
        }
        canonical_path.get_char(dlen) == '/'
    }

    /// Canonicalize `path` and approve it only if the canonical form lies
    /// within the allowed directory. What comes back, when something does,
    /// is that canonical form, contained.
    pub fn canonical_within(&self, path: &str) -> (r: Option<String>)
        ensures
            r matches Some(c) ==> path_within(c@, self.allowed_dir@),
    {
        match canonicalize_path(path) {
            Some(c) => {
                if self.is_path_allowed(c.as_str()) {
                    Some(c)
                } else {
                    None
                }
            },
            None => None,
        }
    }

    /// Whether the path's extension is `.js` or `.mjs`.
    pub fn is_extension_allowed(path: &str) -> (r: bool)
        ensures
            r == ext_allowed(path@),
    {
        let len = path.unicode_len();
        let cs = find_comp_start(path);
        proof {
            reveal_strlit(".js");
            reveal_strlit(".mjs");
            reveal_strlit("js");
            reveal_strlit("mjs");
        }
        if crate::text::str_ends_with(path, ".js") {
            assert(".js"@ =~= seq!['.'] + "js"@);
            assert(has_extension(path@, "js"@) == (len - 3 > cs)) by {
                assert(path@.subrange(len - 3, len as int) =~= ".js"@);
            }
            proof {
                if has_extension(path@, "mjs"@) {
                    assert(path@.subrange(len - 4, len as int)[1] == path@[len - 3]);
                    assert((seq!['.'] + "mjs"@)[1] == 'm');
                    assert(path@.subrange(len - 3, len as int)[0] == path@[len - 3]);
                    assert(".js"@[0] == '.');
                    assert(false);
                }
            }
            return len - 3 > cs;
        }
        if crate::text::str_ends_with(path, ".mjs") {
            assert(".mjs"@ =~= seq!['.'] + "mjs"@);
            assert(has_extension(path@, "mjs"@) == (len - 4 > cs)) by {
                assert(path@.subrange(len - 4, len as int) =~= ".mjs"@);
            }
            proof {
                if has_extension(path@, "js"@) {
                    assert(path@.subrange(len - 3, len as int)[0] == path@[len - 3]);
                    assert((seq!['.'] + "js"@)[0] == '.');
                    assert(path@.subrange(len - 4, len as int)[1] == path@[len - 3]);
                    assert(".mjs"@[1] == 'm');
                    assert(false);
                }
            }
            return len - 4 > cs;
        }
        proof {
            if has_extension(path@, "js"@) {
                assert(path@.subrange(len - 3, len as int) =~= ".js"@);
            }
            if has_extension(path@, "mjs"@) {
                assert(path@.subrange(len - 4, len as int) =~= ".mjs"@);
            }
        }
        false
    }

    /// Resolve a specifier against its referrer, and approve the result.
    ///
    /// Remote and inline sources are rejected outright. Everything else is
    /// resolved to a `file://` URL whose path must canonicalize into the
    /// allowed directory and carry an allowed extension.
    pub fn resolve(&self, specifier: &str, referrer: &str) -> (r: Result<
        ResolvedModule,
        LoaderError,
    >)
        ensures
            is_remote_specifier(specifier@) ==> r matches Err(LoaderError::RemoteForbidden(_)),
            r matches Err(LoaderError::RemoteForbidden(s)) ==> is_remote_specifier(specifier@)
                && s@ == specifier@,
            r matches Ok(m) ==> resolution_target(self.allowed_dir@, specifier@, referrer@)
                == Some(m.url@),
            r matches Ok(m) ==> "file://"@.is_prefix_of(m.url@),
            r matches Ok(m) ==> url_to_path_of(m.url@) == Some(m.path@),
            r matches Ok(m) ==> path_within(m.canonical_path@, self.allowed_dir@),
            r matches Ok(m) ==> ext_allowed(m.path@),
            r matches Err(LoaderError::InvalidReferrer(s)) ==> is_relative_specifier(specifier@)
                && url_parse_of(referrer@) is None && s@ == referrer@,
            !is_remote_specifier(specifier@) && is_relative_specifier(specifier@)
                && url_parse_of(referrer@) is None ==> r matches Err(
                LoaderError::InvalidReferrer(_),
            ),
            r matches Err(LoaderError::ResolveFailed(s)) ==> is_relative_specifier(specifier@)
                && url_parse_of(referrer@) is Some && url_join_of(referrer@, specifier@) is None
                && s@ == specifier@,
            !is_remote_specifier(specifier@) && is_relative_specifier(specifier@)
                && url_parse_of(referrer@) is Some && url_join_of(referrer@, specifier@) is None
                ==> r matches Err(LoaderError::ResolveFailed(_)),
            r matches Err(LoaderError::InvalidFileUrl(s)) ==> !is_relative_specifier(specifier@)
                && is_file_url_specifier(specifier@) && url_parse_of(specifier@) is None && s@
                == specifier@,
            !is_remote_specifier(specifier@) && !is_relative_specifier(specifier@)
                && is_file_url_specifier(specifier@) && url_parse_of(specifier@) is None ==> r
                matches Err(LoaderError::InvalidFileUrl(_)),
            r matches Err(LoaderError::InvalidAbsolutePath(s)) ==> !is_relative_specifier(
                specifier@,
            ) && !is_file_url_specifier(specifier@) && is_abs_path_specifier(specifier@)
                && url_from_path_of(specifier@) is None && s@ == specifier@,
            !is_remote_specifier(specifier@) && !is_relative_specifier(specifier@)
                && !is_file_url_specifier(specifier@) && is_abs_path_specifier(specifier@)
                && url_from_path_of(specifier@) is None ==> r matches Err(
                LoaderError::InvalidAbsolutePath(_),
            ),
            r matches Err(LoaderError::InvalidBareSpecifier(s)) ==> !is_relative_specifier(
                specifier@,
            ) && !is_file_url_specifier(specifier@) && !is_abs_path_specifier(specifier@)
                && url_from_path_of(self.allowed_dir@ + "/"@ + specifier@) is None && s@
                == specifier@,
            !is_remote_specifier(specifier@) && !is_relative_specifier(specifier@)
                && !is_file_url_specifier(specifier@) && !is_abs_path_specifier(specifier@)
                && url_from_path_of(self.allowed_dir@ + "/"@ + specifier@) is None ==> r matches
                Err(LoaderError::InvalidBareSpecifier(_)),
            r matches Err(LoaderError::NotFileUrl(u)) ==> resolution_target(
                self.allowed_dir@,
                specifier@,
                referrer@,
            ) == Some(u@) && !"file://"@.is_prefix_of(u@),
            resolution_target(self.allowed_dir@, specifier@, referrer@) matches Some(u) ==> (
            !is_remote_specifier(specifier@) && !(is_relative_specifier(specifier@)
                && url_parse_of(referrer@) is None) && !"file://"@.is_prefix_of(u) ==> r matches
                Err(LoaderError::NotFileUrl(_))),
            r matches Err(LoaderError::NotAPath(u)) ==> resolution_target(
                self.allowed_dir@,
                specifier@,
                referrer@,
            ) == Some(u@) && "file://"@.is_prefix_of(u@) && url_to_path_of(u@) is None,
            resolution_target(self.allowed_dir@, specifier@, referrer@) matches Some(u) ==> (
            !is_remote_specifier(specifier@) && !(is_relative_specifier(specifier@)
                && url_parse_of(referrer@) is None) && "file://"@.is_prefix_of(u)
                && url_to_path_of(u) is None ==> r matches Err(LoaderError::NotAPath(_))),
            r matches Err(LoaderError::OutsideAllowedDir(p)) ==> (resolution_target(
                self.allowed_dir@,
                specifier@,
                referrer@,
            ) matches Some(u) && url_to_path_of(u) == Some(p@)),
            r matches Err(LoaderError::BadExtension(p)) ==> (resolution_target(
                self.allowed_dir@,
                specifier@,
                referrer@,
            ) matches Some(u) && url_to_path_of(u) == Some(p@)) && !ext_allowed(p@),
            resolution_target(self.allowed_dir@, specifier@, referrer@) matches Some(u) ==> (
            !is_remote_specifier(specifier@) && !(is_relative_specifier(specifier@)
                && url_parse_of(referrer@) is None) && "file://"@.is_prefix_of(u) && (
            url_to_path_of(u) matches Some(p) && !ext_allowed(p)) ==> r is Err),
    {
        proof {
            reveal_strlit("http://");
            reveal_strlit("https://");
            reveal_strlit("data:");
            reveal_strlit("blob:");
            reveal_strlit("./");
            reveal_strlit("../");
            reveal_strlit("file://");
            reveal_strlit("/");
        }
        if str_starts_with(specifier, "http://") || str_starts_with(specifier, "https://")
            || str_starts_with(specifier, "data:") || str_starts_with(specifier, "blob:") {
            return Err(LoaderError::RemoteForbidden(String::from_str(specifier)));
        }
        let resolved: String = if str_starts_with(specifier, "./") || str_starts_with(
            specifier,
            "../",
        ) {
            match url_parse_norm(referrer) {
                Some(_) => {},
                None => {
                    return Err(LoaderError::InvalidReferrer(String::from_str(referrer)));
                },
            }
            match url_join(referrer, specifier) {
                Some(u) => u,
                None => {
                    return Err(LoaderError::ResolveFailed(String::from_str(specifier)));
                },
            }
        } else if str_starts_with(specifier, "file://") {
            match url_parse_norm(specifier) {
                Some(u) => u,
                None => {
                    return Err(LoaderError::InvalidFileUrl(String::from_str(specifier)));
                },
            }
        } else if str_starts_with(specifier, "/") {
            match url_from_path(specifier) {
                Some(u) => u,
                None => {
                    return Err(LoaderError::InvalidAbsolutePath(String::from_str(specifier)));
                },
            }
        } else {
            let mut joined = String::new();
            joined.append(self.allowed_dir.as_str());
            joined.append("/");
            joined.append(specifier);
            assert(joined@ =~= self.allowed_dir@ + "/"@ + specifier@);
            match url_from_path(joined.as_str()) {
                Some(u) => u,
                None => {
                    return Err(LoaderError::InvalidBareSpecifier(String::from_str(specifier)));
                },
            }
        };
        if !str_starts_with(resolved.as_str(), "file://") {
            return Err(LoaderError::NotFileUrl(resolved));
        }
        let path = match url_to_path(resolved.as_str()) {
            Some(p) => p,
            None => {
                return Err(LoaderError::NotAPath(resolved));
            },
        };
        let canonical = match self.canonical_within(path.as_str()) {
            Some(c) => c,
            None => {
                return Err(LoaderError::OutsideAllowedDir(path));
            },
        };
        if !Self::is_extension_allowed(path.as_str()) {
            return Err(LoaderError::BadExtension(path));
        }
        Ok(ResolvedModule { url: resolved, path, canonical_path: canonical })
    }

    /// Re-check a resolved `file://` URL and approve its path for reading
    /// (defense in depth: `resolve` already checked the same things).
    /// The caller reads the returned path and feeds the text to the engine.
    pub fn load(&self, specifier_url: &str) -> (r: Result<ApprovedModule, LoaderError>)
        ensures
            r matches Ok(m) ==> url_to_path_of(specifier_url@) == Some(m.path@),
            r matches Ok(m) ==> path_within(m.canonical_path@, self.allowed_dir@),
            r matches Ok(m) ==> ext_allowed(m.path@),
            url_to_path_of(specifier_url@) is None <==> r matches Err(LoaderError::NotAPath(_)),
            r matches Err(LoaderError::NotAPath(s)) ==> s@ == specifier_url@,
            r matches Err(LoaderError::AccessDenied(p)) ==> url_to_path_of(specifier_url@)
                == Some(p@),
            r matches Err(LoaderError::InvalidExtension(p)) ==> url_to_path_of(specifier_url@)
                == Some(p@) && !ext_allowed(p@),
            url_to_path_of(specifier_url@) matches Some(p) ==> (!ext_allowed(p) ==> r is Err),
    {
        let path = match url_to_path(specifier_url) {
            Some(p) => p,
            None => {
                return Err(LoaderError::NotAPath(String::from_str(specifier_url)));
            },
        };
        let canonical = match self.canonical_within(path.as_str()) {
            Some(c) => c,
            None => {
                return Err(LoaderError::AccessDenied(path));
            },
        };
        if !Self::is_extension_allowed(path.as_str()) {
            return Err(LoaderError::InvalidExtension(path));
        }
        Ok(ApprovedModule { path, canonical_path: canonical })
    }
}

} // verus!
