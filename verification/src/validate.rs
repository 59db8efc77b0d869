//! Lenient validation of a parsed skill against its directory name.
use vstd::prelude::*;
use crate::skill::Skill;
use crate::text::{append_str, debug_quote, debug_str, str_eq, utf8_len, lemma_utf8_len_is_encoding_len};

verus! {

/// Result of validating a skill. Warnings do not prevent installation; errors cause the
/// skill to be skipped.
#[derive(Debug)]
pub struct ValidationResult {
    pub warnings: Vec<String>,
    pub errors: Vec<String>,
}

/// Views of a sequence of strings.
pub open spec fn views(v: Seq<String>) -> Seq<Seq<char>> {
    v.map_values(|s: String| s@)
}

impl ValidationResult {
    /// `true` when there are no errors (warnings are allowed).
    pub fn ok(&self) -> (r: bool)
        ensures
            r == (self.errors@.len() == 0),
    {
        self.errors.len() == 0
    }
}

/// The errors validation reports: an empty description.
pub open spec fn validation_errors(description: Seq<char>) -> Seq<Seq<char>> {
    if description.len() == 0 {
        seq!["description is empty or missing"@]
    } else {
        seq![]
    }
}

/// The warnings validation reports: a name that differs from the directory name (both
/// non-empty), then a name longer than 64 bytes.
pub open spec fn validation_warnings(name: Seq<char>, dir: Seq<char>) -> Seq<Seq<char>> {
    let mismatch: Seq<Seq<char>> = if name.len() > 0 && dir.len() > 0 && name != dir {
        seq![
            "skill name "@ + debug_str(name) + " does not match directory name "@ + debug_str(
                dir,
            ),
        ]
    } else {
        seq![]
    };
    let long: Seq<Seq<char>> = if utf8_len(name) > 64 {
        seq!["skill name "@ + debug_str(name) + " exceeds 64 characters"@]
    } else {
        seq![]
    };
    mismatch + long
}

/// Performs lenient validation of a skill against its directory name.
pub fn validate(skill: &Skill, dir_name: &str) -> (r: ValidationResult)
    ensures
        views(r.errors@) == validation_errors(skill.description@),
        views(r.warnings@) == validation_warnings(skill.name@, dir_name@),
{
    let mut errors: Vec<String> = Vec::new();
    let mut warnings: Vec<String> = Vec::new();
    if skill.description.as_str().unicode_len() == 0 {
        errors.push("description is empty or missing".to_string());
    }
    assert(views(errors@) =~= validation_errors(skill.description@));
    let name = skill.name.as_str();
    let name_len = name.unicode_len();
    let dir_len = dir_name.unicode_len();
    if name_len > 0 && dir_len > 0 && !str_eq(name, dir_name) {
        let mut m = "skill name ".to_string();
        append_str(&mut m, debug_quote(name).as_str());
        append_str(&mut m, " does not match directory name ");
        append_str(&mut m, debug_quote(dir_name).as_str());
        warnings.push(m);
    }
    let ghost after_mismatch = views(warnings@);
    let bytes = name.as_bytes().len();
    proof {
        lemma_utf8_len_is_encoding_len(name@);
    }
    if bytes > 64 {
        let mut m = "skill name ".to_string();
        append_str(&mut m, debug_quote(name).as_str());
        append_str(&mut m, " exceeds 64 characters");
        warnings.push(m);
    }
    assert(views(warnings@) =~= validation_warnings(skill.name@, dir_name@));
    ValidationResult { warnings, errors }
}

} // verus!
