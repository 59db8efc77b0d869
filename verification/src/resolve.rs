//! Where skills are installed: `--prefix`, or the user's or the repository's
//! `.agents/skills` directory.
use vstd::prelude::*;
use crate::text::{append_str, concat, debug_quote, debug_str, str_eq};

verus! {

/// Errors from install directory resolution.
#[derive(Debug)]
pub enum ResolveError {
    HomeDir(String),
    /// Resolving the scope failed; `source` is the underlying error's text.
    Scope { scope: String, source: String },
    NotInRepo,
    SymlinkGit(String),
    UnsupportedGitType(String),
    UnknownScope(String),
    /// An I/O error's text.
    Io(String),
}

impl ResolveError {
    pub open spec fn message_spec(&self) -> Seq<char> {
        match self {
            ResolveError::HomeDir(m) => "resolving home directory: "@ + m@,
            ResolveError::Scope { scope, source } => "resolving install dir for scope "@
                + debug_str(scope@) + ": "@ + source@,
            ResolveError::NotInRepo => "not in a git repository"@,
            ResolveError::SymlinkGit(d) => ".git in "@ + d@
                + " is a symlink, which is not supported for security reasons"@,
            ResolveError::UnsupportedGitType(d) => ".git in "@ + d@ + " has unsupported file type"@,
            ResolveError::UnknownScope(s) => "unknown scope "@ + debug_str(s@)
                + " (supported: user, repo)"@,
            ResolveError::Io(m) => m@,
        }
    }

    /// The error's display text.
    pub fn message(&self) -> (r: String)
        ensures
            r@ == self.message_spec(),
    {
        match self {
            ResolveError::HomeDir(m) => concat("resolving home directory: ", m.as_str()),
            ResolveError::Scope { scope, source } => {
                let mut r = concat("resolving install dir for scope ", debug_quote(scope.as_str()).as_str());
                append_str(&mut r, ": ");
                append_str(&mut r, source.as_str());
                r
            },
            ResolveError::NotInRepo => "not in a git repository".to_string(),
            ResolveError::SymlinkGit(d) => {
                let mut r = concat(".git in ", d.as_str());
                append_str(&mut r, " is a symlink, which is not supported for security reasons");
                r
            },
            ResolveError::UnsupportedGitType(d) => {
                let mut r = concat(".git in ", d.as_str());
                append_str(&mut r, " has unsupported file type");
                r
            },
            ResolveError::UnknownScope(s) => {
                let mut r = concat("unknown scope ", debug_quote(s.as_str()).as_str());
                append_str(&mut r, " (supported: user, repo)");
                r
            },
            ResolveError::Io(m) => m.clone(),
        }
    }
}

/// The installation directory, or where to look for it.
#[derive(Debug, PartialEq, Eq)]
pub enum InstallLocation {
    /// This exact directory.
    Path(String),
    /// `.agents/skills` under the home directory.
    UserHome,
    /// `.agents/skills` under the repository root.
    RepoRoot,
}

/// The location a scope names: none, `user` or empty for the home directory, `repo` for the
/// repository root.
pub open spec fn scope_location_spec(scope: Option<Seq<char>>) -> Result<InstallLocation, Seq<char>> {
    let s = match scope {
        Some(s) => s,
        None => "user"@,
    };
    if s == "user"@ || s.len() == 0 {
        Ok(InstallLocation::UserHome)
    } else if s == "repo"@ {
        Ok(InstallLocation::RepoRoot)
    } else {
        Err(s)
    }
}

/// The view of an optional string slice.
pub open spec fn opt_view(o: Option<&str>) -> Option<Seq<char>> {
    match o {
        Some(s) => Some(s@),
        None => None,
    }
}

/// Resolves a scope to the location of its installation directory.
pub fn scope_location(scope: Option<&str>) -> (r: Result<InstallLocation, ResolveError>)
    ensures
        match scope_location_spec(opt_view(scope)) {
            Ok(l) => r == Ok::<InstallLocation, ResolveError>(l),
            Err(s) => r matches Err(ResolveError::UnknownScope(u)) && u@ == s,
        },
{
    let s = match scope {
        Some(s) => s,
        None => "user",
    };
    if str_eq(s, "user") || s.unicode_len() == 0 {
        Ok(InstallLocation::UserHome)
    } else if str_eq(s, "repo") {
        Ok(InstallLocation::RepoRoot)
    } else {
        Err(ResolveError::UnknownScope(s.to_owned()))
    }
}

/// Resolves the effective installation directory: `--prefix` takes precedence over
/// `--scope`.
pub fn install_dir(prefix: Option<&str>, scope: Option<&str>) -> (r: Result<
    InstallLocation,
    ResolveError,
>)
    ensures
        prefix matches Some(p) ==> (r matches Ok(InstallLocation::Path(d)) && d@ == p@),
        prefix is None ==> match scope_location_spec(opt_view(scope)) {
            Ok(l) => r == Ok::<InstallLocation, ResolveError>(l),
            Err(s) => r matches Err(ResolveError::UnknownScope(u)) && u@ == s,
        },
{
    if let Some(p) = prefix {
        return Ok(InstallLocation::Path(p.to_owned()));
    }
    scope_location(scope)
}

/// `Path::join` on Unix: an absolute component replaces the path; otherwise a `/` is put
/// between them unless `base` is empty or already ends with `/`.
pub open spec fn path_join(base: Seq<char>, rel: Seq<char>) -> Seq<char> {
    if rel.len() > 0 && rel[0] == '/' {
        rel
    } else if base.len() == 0 || base.last() == '/' {
        base + rel
    } else {
        base + seq!['/'] + rel
    }
}

/// Joins a relative component to a path.
pub fn join_path(base: &str, rel: &str) -> (r: String)
    ensures
        r@ == path_join(base@, rel@),
{
    if crate::text::starts_with_char(rel, '/') {
        return rel.to_owned();
    }
    let n = base.unicode_len();
    let mut out = base.to_owned();
    if n > 0 && base.get_char(n - 1) != '/' {
        crate::text::push_char(&mut out, '/');
    }
    append_str(&mut out, rel);
    out
}

/// `<base>/.agents/skills`.
pub open spec fn skills_dir_under(base: Seq<char>) -> Seq<char> {
    path_join(path_join(base, ".agents"@), "skills"@)
}

/// The skills directory under a base directory.
pub fn skills_dir_in(base: &str) -> (r: String)
    ensures
        r@ == skills_dir_under(base@),
{
    let a = join_path(base, ".agents");
    join_path(a.as_str(), "skills")
}

/// The user-scope directory from the value of `HOME`, when it is set.
pub fn user_install_dir(home: Option<&str>) -> (r: Result<String, ResolveError>)
    ensures
        home matches Some(h) ==> (r matches Ok(d) && d@ == skills_dir_under(h@)),
        home is None ==> (r matches Err(ResolveError::HomeDir(m)) && m@
            == "HOME environment variable not set"@),
{
    match home {
        Some(h) => Ok(skills_dir_in(h)),
        None => Err(ResolveError::HomeDir("HOME environment variable not set".to_string())),
    }
}

/// What `.git` in a directory is, as `symlink_metadata` reports it.
#[derive(Debug)]
pub enum GitEntry {
    Dir,
    File,
    Symlink,
    Other,
    Missing,
    /// Looking it up failed otherwise; the error's text.
    Failed(String),
}

/// One step of the upward search for the repository root.
#[derive(Debug)]
pub enum RepoSearch {
    /// This directory is the root.
    Found,
    /// Look in the parent directory.
    Ascend,
    Fail(ResolveError),
}

/// Decides the search step from what `.git` is in `dir`: a directory or a file marks the
/// root, a symlink or another file type is refused, a missing one sends the search upward.
pub fn repo_search_step(entry: GitEntry, dir: &str) -> (r: RepoSearch)
    ensures
        (r is Found) <==> (entry is Dir || entry is File),
        (r is Ascend) <==> entry is Missing,
        entry is Symlink ==> (r matches RepoSearch::Fail(ResolveError::SymlinkGit(d)) && d@
            == dir@),
        entry is Other ==> (r matches RepoSearch::Fail(ResolveError::UnsupportedGitType(d)) && d@
            == dir@),
        entry matches GitEntry::Failed(m) ==> (r matches RepoSearch::Fail(
            ResolveError::Scope { scope, source },
        ) && scope@ == "repo"@ && source@ == m@),
{
    match entry {
        GitEntry::Dir | GitEntry::File => RepoSearch::Found,
        GitEntry::Symlink => RepoSearch::Fail(ResolveError::SymlinkGit(dir.to_owned())),
        GitEntry::Other => RepoSearch::Fail(ResolveError::UnsupportedGitType(dir.to_owned())),
        GitEntry::Missing => RepoSearch::Ascend,
        GitEntry::Failed(m) => RepoSearch::Fail(
            ResolveError::Scope { scope: "repo".to_string(), source: m },
        ),
    }
}

} // verus!
