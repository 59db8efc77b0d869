//! Enumerating the skills of a bundle: each skill directory's SKILL.md, parsed and validated.
use vstd::prelude::*;
use crate::skill::{Skill, SkillParseError};
use crate::skill_error::SkillError;
use crate::resolve::{join_path, path_join};
use crate::text::concat;
use crate::validate::{validate, validation_errors, views};

verus! {

/// What a skill directory's SKILL.md turned out to be.
#[derive(Debug)]
pub enum SkillSource {
    /// The directory has no SKILL.md.
    Missing,
    /// SKILL.md is not valid UTF-8.
    NotUtf8,
    /// SKILL.md parsed (or failed to parse) as a skill.
    Parsed(Result<Skill, SkillParseError>),
}

/// One subdirectory of a skill bundle.
#[derive(Debug)]
pub struct SkillEntry {
    /// The directory's name, when it is valid Unicode.
    pub name: Option<String>,
    pub source: SkillSource,
}

/// `s` with its `dir` set to `d`.
pub open spec fn with_dir(s: Skill, d: String) -> Skill {
    Skill {
        name: s.name,
        description: s.description,
        license: s.license,
        compatibility: s.compatibility,
        metadata: s.metadata,
        allowed_tools: s.allowed_tools,
        body: s.body,
        dir: d,
    }
}

/// Pairs each message with the directory it concerns, prefixed.
pub open spec fn tagged(dir: Seq<char>, prefix: Seq<char>, msgs: Seq<Seq<char>>) -> Seq<
    (Seq<char>, Seq<char>),
> {
    msgs.map_values(|m: Seq<char>| (dir, prefix + m))
}

/// The skills found in `entries`, and the errors (directory, message) met on the way.
///
/// Entries without a name or without SKILL.md are skipped silently; a SKILL.md that is not
/// UTF-8, does not parse, or fails validation yields errors; every other skill is kept, its
/// `dir` set to the directory name.
pub open spec fn discovered(entries: Seq<SkillEntry>) -> (Seq<Skill>, Seq<(Seq<char>, Seq<char>)>)
    decreases entries.len(),
{
    if entries.len() == 0 {
        (Seq::empty(), Seq::empty())
    } else {
        let (sk, er) = discovered(entries.drop_last());
        let e = entries.last();
        match e.name {
            None => (sk, er),
            Some(name) => match e.source {
                SkillSource::Missing => (sk, er),
                SkillSource::NotUtf8 => (sk, er.push((name@, "SKILL.md is not valid UTF-8"@))),
                SkillSource::Parsed(Err(pe)) => (
                    sk,
                    er.push((name@, "parse error: "@ + pe.message_spec())),
                ),
                SkillSource::Parsed(Ok(s)) => {
                    let errs = validation_errors(s.description@);
                    if errs.len() > 0 {
                        (sk, er + tagged(name@, "validation error: "@, errs))
                    } else {
                        (sk.push(with_dir(s, name)), er)
                    }
                },
            },
        }
    }
}

/// Views of skill errors.
pub open spec fn error_views(v: Seq<SkillError>) -> Seq<(Seq<char>, Seq<char>)> {
    v.map_values(|e: SkillError| (e.dir@, e.err@))
}

/// Enumerates the skills of a bundle, returning the valid skills together with the
/// per-skill errors.
pub fn discover(entries: Vec<SkillEntry>) -> (r: (Vec<Skill>, Vec<SkillError>))
    ensures
        r.0@ == discovered(entries@).0,
        error_views(r.1@) == discovered(entries@).1,
{
    let ghost orig = entries@;
    let mut entries = entries;
    let mut skills: Vec<Skill> = Vec::new();
    let mut errors: Vec<SkillError> = Vec::new();
    let n = entries.len();
    let mut i: usize = 0;
    while i < n
        invariant
            n == orig.len(),
            0 <= i <= n,
            entries@ == orig.subrange(i as int, n as int),
            skills@ == discovered(orig.take(i as int)).0,
            error_views(errors@) == discovered(orig.take(i as int)).1,
        decreases n - i,
    {
        let e = entries.remove(0);
        proof {
            assert(e == orig[i as int]);
            assert(orig.take(i + 1).drop_last() =~= orig.take(i as int));
            assert(orig.take(i + 1).last() == orig[i as int]);
            assert(entries@ =~= orig.subrange(i + 1, n as int));
        }
        let ghost before = error_views(errors@);
        match e.name {
            None => {},
            Some(dir_name) => match e.source {
                SkillSource::Missing => {},
                SkillSource::NotUtf8 => {
                    errors.push(
                        SkillError { dir: dir_name, err: "SKILL.md is not valid UTF-8".to_string() },
                    );
                    assert(error_views(errors@) =~= before.push(
                        (dir_name@, "SKILL.md is not valid UTF-8"@),
                    ));
                },
                SkillSource::Parsed(Err(pe)) => {
                    let m = concat("parse error: ", pe.message().as_str());
                    errors.push(SkillError { dir: dir_name, err: m });
                    assert(error_views(errors@) =~= before.push(
                        (dir_name@, "parse error: "@ + pe.message_spec()),
                    ));
                },
                SkillSource::Parsed(Ok(parsed)) => {
                    let result = validate(&parsed, dir_name.as_str());
                    if !result.ok() {
                        let errs = result.errors;
                        let ghost msgs = views(errs@);
                        let m = errs.len();
                        let mut j: usize = 0;
                        while j < m
                            invariant
                                m == errs@.len(),
                                0 <= j <= m,
                                msgs == views(errs@),
                                error_views(errors@) == before + tagged(
                                    dir_name@,
                                    "validation error: "@,
                                    msgs.take(j as int),
                                ),
                            decreases m - j,
                        {
                            let ghost prev = error_views(errors@);
                            let text = concat("validation error: ", errs[j].as_str());
                            errors.push(SkillError { dir: dir_name.clone(), err: text });
                            assert(error_views(errors@) =~= prev.push(
                                (dir_name@, "validation error: "@ + msgs[j as int]),
                            ));
                            assert(tagged(dir_name@, "validation error: "@, msgs.take(j + 1))
                                =~= tagged(
                                dir_name@,
                                "validation error: "@,
                                msgs.take(j as int),
                            ).push((dir_name@, "validation error: "@ + msgs[j as int])));
                            j = j + 1;
                        }
                        assert(msgs.take(m as int) =~= msgs);
                    } else {
                        let mut parsed = parsed;
                        parsed.dir = dir_name;
                        skills.push(parsed);
                    }
                },
            },
        }
        i = i + 1;
    }
    assert(orig.take(n as int) =~= orig);
    (skills, errors)
}

/// Every skill that discovery keeps has a description (it passed validation), and no more
/// skills are kept than there are entries.
pub proof fn law_discovered_skills_are_valid(entries: Seq<SkillEntry>)
    ensures
        discovered(entries).0.len() <= entries.len(),
        forall|i: int|
            0 <= i < discovered(entries).0.len() ==> (#[trigger] discovered(entries).0[i]).description@.len()
                > 0,
    decreases entries.len(),
{
    if entries.len() > 0 {
        law_discovered_skills_are_valid(entries.drop_last());
    }
}

/// The entries that have a name and a SKILL.md: each of them ends as a kept skill or as
/// at least one reported error.
pub open spec fn present_entries(entries: Seq<SkillEntry>) -> nat
    decreases entries.len(),
{
    if entries.len() == 0 {
        0
    } else {
        present_entries(entries.drop_last()) + if entries.last().name is Some
            && !(entries.last().source is Missing) {
            1nat
        } else {
            0nat
        }
    }
}

/// No skill is lost silently: every named entry with a SKILL.md is either kept or reported,
/// so kept skills and errors together are at least as many as such entries.
pub proof fn law_no_skill_lost_silently(entries: Seq<SkillEntry>)
    ensures
        discovered(entries).0.len() + discovered(entries).1.len() >= present_entries(entries),
    decreases entries.len(),
{
    if entries.len() > 0 {
        law_no_skill_lost_silently(entries.drop_last());
    }
}

/// A skill whose description is empty is not kept: it adds exactly the error
/// `validation error: description is empty or missing`, tagged with its directory, after
/// the errors of the entries before it.
pub proof fn law_empty_description_reported(entries: Seq<SkillEntry>, name: String, s: Skill)
    requires
        s.description@.len() == 0,
    ensures
        ({
            let e = SkillEntry { name: Some(name), source: SkillSource::Parsed(Ok(s)) };
            &&& discovered(entries.push(e)).0 == discovered(entries).0
            &&& discovered(entries.push(e)).1 == discovered(entries).1.push(
                (name@, "validation error: description is empty or missing"@),
            )
        }),
{
    let e = SkillEntry { name: Some(name), source: SkillSource::Parsed(Ok(s)) };
    let es = entries.push(e);
    assert(es.drop_last() =~= entries);
    assert(es.last() == e);
    let msgs = validation_errors(s.description@);
    assert(msgs == seq!["description is empty or missing"@]);
    assert(tagged(name@, "validation error: "@, msgs) =~= seq![
        (name@, "validation error: "@ + "description is empty or missing"@),
    ]);
    reveal_strlit("validation error: ");
    reveal_strlit("description is empty or missing");
    reveal_strlit("validation error: description is empty or missing");
    assert("validation error: "@ + "description is empty or missing"@
        =~= "validation error: description is empty or missing"@);
    assert(discovered(es).1 =~= discovered(entries).1.push(
        (name@, "validation error: description is empty or missing"@),
    ));
}

/// Where a skill directory's SKILL.md is, from the directory's path within the bundle.
pub fn skill_file_path(dir_path: &str) -> (r: String)
    ensures
        r@ == path_join(dir_path@, "SKILL.md"@),
{
    join_path(dir_path, "SKILL.md")
}

} // verus!
