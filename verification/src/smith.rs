//! The skills subcommand's host: the tool's name and version.
use vstd::prelude::*;
use crate::text::{concat, debug_quote, debug_str, str_eq, strip_leading_char};
use crate::versions::{is_semver, semver_parses, without_v};

verus! {

/// The tool that embeds the skills, by name and version.
#[derive(Debug)]
pub struct Smith {
    name: String,
    version: String,
}

/// Errors from `Smith` operations.
#[derive(Debug)]
pub enum SmithError {
    InvalidVersion(String),
    EmptySkillFS,
    Other(String),
}

impl SmithError {
    /// The error's display text.
    pub fn message(&self) -> (r: String)
        ensures
            r@ == match self {
                SmithError::InvalidVersion(v) => "invalid version "@ + debug_str(v@),
                SmithError::EmptySkillFS => "skill filesystem cannot be empty"@,
                SmithError::Other(m) => m@,
            },
    {
        match self {
            SmithError::InvalidVersion(v) => concat("invalid version ", debug_quote(v.as_str()).as_str()),
            SmithError::EmptySkillFS => "skill filesystem cannot be empty".to_string(),
            SmithError::Other(m) => m.clone(),
        }
    }
}

impl Smith {
    /// Creates a host with the given tool name and version. The version must be a semantic
    /// version, with or without a leading `v`.
    pub fn new(name: &str, version: &str) -> (r: Result<Smith, SmithError>)
        ensures
            r is Ok <==> semver_parses(without_v(version@)),
            r matches Ok(s) ==> s.name_spec() == name@ && s.version_spec() == version@,
            r matches Err(e) ==> e matches SmithError::InvalidVersion(v) && v@ == version@,
    {
        let v = strip_leading_char(version, 'v');
        if !is_semver(v.as_str()) {
            return Err(SmithError::InvalidVersion(version.to_owned()));
        }
        Ok(Smith { name: name.to_owned(), version: version.to_owned() })
    }

    pub closed spec fn name_spec(&self) -> Seq<char> {
        self.name@
    }

    pub closed spec fn version_spec(&self) -> Seq<char> {
        self.version@
    }

    /// Name of the hosting tool.
    pub fn name(&self) -> (r: &str)
        ensures
            r@ == self.name_spec(),
    {
        self.name.as_str()
    }

    /// Version string as given to `new`.
    pub fn version(&self) -> (r: &str)
        ensures
            r@ == self.version_spec(),
    {
        self.version.as_str()
    }
}

/// The bundle root holds exactly one subdirectory and it is named `skills`: that directory
/// is then used as the skill root.
pub open spec fn uses_skills_subdir(names: Seq<Option<Seq<char>>>) -> bool {
    names.len() == 1 && names[0] == Some("skills"@)
}

/// Views of optional directory names.
pub open spec fn opt_views(v: Seq<Option<String>>) -> Seq<Option<Seq<char>>> {
    v.map_values(|o: Option<String>| match o {
        Some(s) => Some(s@),
        None => None,
    })
}

/// Whether the bundle root (given by the names of its subdirectories, `None` for a name that
/// is not valid Unicode) should be replaced by its single `skills` subdirectory.
pub fn use_skills_subdir(subdir_names: &Vec<Option<String>>) -> (r: bool)
    ensures
        r == uses_skills_subdir(opt_views(subdir_names@)),
{
    if subdir_names.len() == 1 {
        match &subdir_names[0] {
            Some(n) => str_eq(n.as_str(), "skills"),
            None => false,
        }
    } else {
        false
    }
}

} // verus!
