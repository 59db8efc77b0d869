//! SKILL.md documents: YAML frontmatter between `---` lines, followed by a markdown body.
use std::collections::HashMap;
use vstd::prelude::*;
use crate::text::{
    chars_of, concat, dashes, find_line_end, lemma_line_end, line_bounds, line_end, lines,
    lines_from, strip_cr, string_from_range, trim, trim_start_newlines, trims_to_dashes,
};

verus! {

/// A YAML value of the frontmatter's `metadata` map, kept as parsed.
#[verifier::external_type_specification]
#[verifier::external_body]
pub struct ExYamlValue(serde_yml::Value);

/// Errors that can occur when parsing a SKILL.md file.
#[derive(Debug)]
pub enum SkillParseError {
    MissingOpenDelimiter,
    MissingCloseDelimiter,
    /// The YAML parser's message.
    YamlError(String),
}

impl SkillParseError {
    /// The error's display text.
    pub fn message(&self) -> (r: String)
        ensures
            r@ == self.message_spec(),
    {
        match self {
            SkillParseError::MissingOpenDelimiter => {
                "SKILL.md: missing frontmatter opening delimiter".to_string()
            },
            SkillParseError::MissingCloseDelimiter => {
                "SKILL.md: missing frontmatter closing delimiter".to_string()
            },
            SkillParseError::YamlError(m) => concat("SKILL.md: YAML parse error: ", m.as_str()),
        }
    }

    pub open spec fn message_spec(&self) -> Seq<char> {
        match self {
            SkillParseError::MissingOpenDelimiter => {
                "SKILL.md: missing frontmatter opening delimiter"@
            },
            SkillParseError::MissingCloseDelimiter => {
                "SKILL.md: missing frontmatter closing delimiter"@
            },
            SkillParseError::YamlError(m) => "SKILL.md: YAML parse error: "@ + m@,
        }
    }
}

/// A parsed agentskill from a SKILL.md file.
#[derive(Debug)]
pub struct Skill {
    pub name: String,
    pub description: String,
    pub license: String,
    pub compatibility: Vec<String>,
    pub metadata: HashMap<String, serde_yml::Value>,
    pub allowed_tools: Vec<String>,
    pub body: String,
    /// Directory name of the skill (set by `discover`).
    pub dir: String,
}

/// The fields of a SKILL.md frontmatter, absent ones defaulted.
#[derive(Debug)]
pub struct Frontmatter {
    pub name: String,
    pub description: String,
    pub license: String,
    pub compatibility: Vec<String>,
    pub metadata: HashMap<String, serde_yml::Value>,
    pub allowed_tools: Vec<String>,
}

impl Skill {
    /// The skill made of a parsed frontmatter and the body; its directory is set later.
    pub fn from_frontmatter(fm: Frontmatter, body: String) -> (r: Skill)
        ensures
            r.name == fm.name,
            r.description == fm.description,
            r.license == fm.license,
            r.compatibility == fm.compatibility,
            r.metadata == fm.metadata,
            r.allowed_tools == fm.allowed_tools,
            r.body == body,
            r.dir@.len() == 0,
    {
        Skill {
            name: fm.name,
            description: fm.description,
            license: fm.license,
            compatibility: fm.compatibility,
            metadata: fm.metadata,
            allowed_tools: fm.allowed_tools,
            body,
            dir: String::new(),
        }
    }
}

/// Index of the first delimiter line in `ls[j..]`, or `ls.len()`.
pub open spec fn first_delimiter(ls: Seq<Seq<char>>, j: int) -> int
    decreases ls.len() - j,
{
    if j < 0 || j >= ls.len() {
        ls.len() as int
    } else if trim(ls[j]) == dashes() {
        j
    } else {
        first_delimiter(ls, j + 1)
    }
}

/// The first line trims to `---`.
pub open spec fn has_open_delimiter(s: Seq<char>) -> bool {
    lines(s).len() > 0 && trim(lines(s)[0]) == dashes()
}

/// Line number of the closing delimiter (`lines(s).len()` when there is none).
pub open spec fn close_index(s: Seq<char>) -> int {
    first_delimiter(lines(s), 1)
}

/// Both delimiters are present.
pub open spec fn has_delimiters(s: Seq<char>) -> bool {
    has_open_delimiter(s) && close_index(s) < lines(s).len()
}

/// Where line `k` starts: just after the `k`-th line ending.
pub open spec fn line_start(s: Seq<char>, k: nat) -> int
    decreases k,
{
    if k == 0 {
        0
    } else {
        line_end(s, line_start(s, (k - 1) as nat)) + 1
    }
}

/// Where the YAML starts: just after the first line ending.
pub open spec fn yaml_start(s: Seq<char>) -> int {
    line_end(s, 0) + 1
}

/// Where the closing delimiter line starts.
pub open spec fn closing_start(s: Seq<char>) -> int {
    line_start(s, close_index(s) as nat)
}

/// The YAML text: the lines between the delimiter lines, with their own line endings except
/// the last one (`\n` or `\r\n`); empty when the delimiter lines are adjacent.
pub open spec fn frontmatter_yaml(s: Seq<char>) -> Seq<char> {
    if closing_start(s) <= yaml_start(s) {
        Seq::empty()
    } else {
        strip_cr(s.subrange(yaml_start(s), closing_start(s) - 1))
    }
}

/// The body: everything after the closing delimiter line's ending, leading newlines removed;
/// empty when the closing line is the last one.
pub open spec fn frontmatter_body(s: Seq<char>) -> Seq<char> {
    let e = line_end(s, closing_start(s));
    if e < s.len() {
        trim_start_newlines(s.subrange(e + 1, s.len() as int))
    } else {
        Seq::empty()
    }
}

} // verus!

verus! {

/// Finds the delimiter lines of `cs`: the end `e0` of the first line and the start `i` of
/// the closing line.
fn find_delimiters(cs: &Vec<char>) -> (r: Result<(usize, usize), SkillParseError>)
    ensures
        (r matches Err(SkillParseError::MissingOpenDelimiter)) <==> !has_open_delimiter(cs@),
        (r matches Err(SkillParseError::MissingCloseDelimiter)) <==> (has_open_delimiter(cs@)
            && !has_delimiters(cs@)),
        r is Ok <==> has_delimiters(cs@),
        r matches Ok((e0, i)) ==> {
            &&& e0 < cs@.len()
            &&& e0 == line_end(cs@, 0)
            &&& e0 < i <= cs@.len()
            &&& i == closing_start(cs@)
        },
{
    let ghost s = cs@;
    let ghost ls = lines(s);
    let n = cs.len();
    if n == 0 {
        assert(ls =~= Seq::<Seq<char>>::empty());
        return Err(SkillParseError::MissingOpenDelimiter);
    }
    let (c0, next0) = line_bounds(cs, 0);
    assert(ls[0] == s.subrange(0, c0 as int));
    assert(ls.subrange(1, ls.len() as int) =~= lines_from(s, next0 as int));
    if !trims_to_dashes(cs, 0, c0) {
        return Err(SkillParseError::MissingOpenDelimiter);
    }
    if next0 >= n {
        assert(lines_from(s, next0 as int) =~= Seq::<Seq<char>>::empty());
        assert(ls.len() == 1);
        return Err(SkillParseError::MissingCloseDelimiter);
    }
    let e0 = find_line_end(cs, 0);
    proof {
        lemma_line_end(s, 0);
        assert(line_start(s, 0) == 0);
        assert(line_start(s, 1) == e0 + 1);
    }
    let mut i = next0;
    let mut idx: usize = 1;
    loop
        invariant_except_break
            0 < i <= n,
            1 <= idx <= ls.len(),
            idx <= i,
        invariant
            n == s.len(),
            ls == lines(s),
            cs@ == s,
            has_open_delimiter(s),
            e0 < n,
            next0 == e0 + 1,
            e0 == line_end(s, 0),
            e0 < i,
            i == line_start(s, idx as nat),
            ls.subrange(idx as int, ls.len() as int) == lines_from(s, i as int),
            first_delimiter(ls, 1) == first_delimiter(ls, idx as int),
        ensures
            e0 < i <= n,
            1 <= idx < ls.len(),
            trim(ls[idx as int]) == dashes(),
        decreases n - i,
    {
        if i >= n {
            assert(lines_from(s, i as int) =~= Seq::<Seq<char>>::empty());
            assert(ls.len() == idx);
            return Err(SkillParseError::MissingCloseDelimiter);
        }
        let (ci, nx) = line_bounds(cs, i);
        assert(lines_from(s, i as int).len() > 0);
        assert(idx < ls.len());
        assert(ls[idx as int] == s.subrange(i as int, ci as int)) by {
            assert(ls.subrange(idx as int, ls.len() as int)[0] == ls[idx as int]);
        }
        assert(ls.subrange(idx + 1, ls.len() as int) =~= lines_from(s, nx as int)) by {
            assert(ls.subrange(idx + 1, ls.len() as int) =~= ls.subrange(
                idx as int,
                ls.len() as int,
            ).drop_first());
        }
        if trims_to_dashes(cs, i, ci) {
            break ;
        }
        if nx >= n {
            assert(lines_from(s, nx as int) =~= Seq::<Seq<char>>::empty());
            assert(ls.len() == idx + 1);
            assert(first_delimiter(ls, idx + 1) == ls.len());
            assert(first_delimiter(ls, idx as int) == ls.len());
            return Err(SkillParseError::MissingCloseDelimiter);
        }
        assert(line_start(s, (idx + 1) as nat) == nx);
        i = nx;
        idx = idx + 1;
    }
    assert(close_index(s) == idx);
    Ok((e0, i))
}

/// Splits SKILL.md content into its YAML frontmatter and its body.
///
/// The first line must trim to `---`; the YAML runs up to the next line that trims to `---`,
/// and the body starts after it, leading newlines removed.
pub fn split_frontmatter(content: &str) -> (r: Result<(String, String), SkillParseError>)
    ensures
        (r matches Err(SkillParseError::MissingOpenDelimiter)) <==> !has_open_delimiter(
            content@,
        ),
        (r matches Err(SkillParseError::MissingCloseDelimiter)) <==> (has_open_delimiter(content@)
            && !has_delimiters(content@)),
        r is Ok <==> has_delimiters(content@),
        r matches Ok((y, b)) ==> y@ == frontmatter_yaml(content@) && b@ == frontmatter_body(
            content@,
        ),
{
    let cs = chars_of(content);
    let ghost s = cs@;
    let n = cs.len();
    let (e0, i) = match find_delimiters(&cs) {
        Ok(t) => t,
        Err(e) => return Err(e),
    };
    let a = e0 + 1;
    let yaml = if i <= a {
        String::new()
    } else {
        let end = if i - 1 > a && cs[i - 2] == '\r' {
            i - 2
        } else {
            i - 1
        };
        proof {
            let y = s.subrange(a as int, i - 1);
            if i - 1 > a && s[i - 2] == '\r' {
                assert(y.drop_last() =~= s.subrange(a as int, end as int));
            }
            assert(strip_cr(y) =~= s.subrange(a as int, end as int));
        }
        string_from_range(&cs, a, end)
    };
    let e = find_line_end(&cs, i);
    let body = if e < n {
        let mut j = e + 1;
        while j < n && cs[j] == '\n'
            invariant
                e + 1 <= j <= n,
                n == s.len(),
                cs@ == s,
                trim_start_newlines(s.subrange(e + 1, n as int)) == trim_start_newlines(
                    s.subrange(j as int, n as int),
                ),
            decreases n - j,
        {
            assert(s.subrange(j as int, n as int).drop_first() =~= s.subrange(j + 1, n as int));
            j = j + 1;
        }
        assert(trim_start_newlines(s.subrange(j as int, n as int)) == s.subrange(j as int, n as int));
        string_from_range(&cs, j, n)
    } else {
        String::new()
    };
    Ok((yaml, body))
}

} // verus!
