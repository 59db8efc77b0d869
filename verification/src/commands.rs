//! The `skills` subcommand: its command line, and the text each subcommand reports.
use vstd::prelude::*;
use crate::copy::{ActionKind, SkillAction};
use crate::skill::Skill;
use crate::skill_error::SkillError;
use crate::text::{append_str, concat, push_char};
use crate::validate::views;
use crate::versions::up_to_date;

verus! {

/// Shared options for the install, update, reinstall, uninstall and status subcommands.
#[derive(Debug, Clone)]
pub struct CommonArgs {
    /// Print what would happen without making changes.
    pub dry_run: bool,
    /// Skill installation directory (overrides `scope`).
    pub prefix: Option<String>,
    /// Target scope: `user` (the default) or `repo`.
    pub scope: String,
    /// Overwrite unmanaged skills or force a downgrade.
    pub force: bool,
}

/// The subcommands of `skills`.
#[derive(Debug)]
pub enum SkillsCommand {
    /// List embedded skills.
    List,
    /// Install skills (skip existing).
    Install(CommonArgs),
    /// Update skills when the version differs.
    Update(CommonArgs),
    /// Reinstall all managed skills.
    Reinstall(CommonArgs),
    /// Uninstall managed skills.
    Uninstall(CommonArgs),
    /// Show install status and version difference.
    Status(CommonArgs),
}

/// The command line of `skills`.
#[derive(Debug)]
pub struct SkillsCli {
    pub command: SkillsCommand,
}

/// Lines for standard output and for standard error.
#[derive(Debug)]
pub struct Report {
    pub out: Vec<String>,
    pub err: Vec<String>,
}

/// `format!("{:<30}", s)`: `s` padded with spaces to 30 characters.
pub open spec fn pad30(s: Seq<char>) -> Seq<char> {
    if s.len() >= 30 {
        s
    } else {
        s + Seq::new((30 - s.len()) as nat, |i: int| ' ')
    }
}

/// Pads a string with spaces to 30 characters.
pub fn pad_to_30(s: &str) -> (r: String)
    ensures
        r@ == pad30(s@),
{
    let n = s.unicode_len();
    let mut out = s.to_owned();
    let mut k = n;
    while k < 30
        invariant
            n == s@.len(),
            n <= k,
            k <= 30 || k == n,
            out@ == s@ + Seq::new((k - n) as nat, |i: int| ' '),
        decreases 30 - k,
    {
        push_char(&mut out, ' ');
        assert(s@ + Seq::new((k + 1 - n) as nat, |i: int| ' ') =~= (s@ + Seq::new(
            (k - n) as nat,
            |i: int| ' ',
        )).push(' '));
        k = k + 1;
    }
    if n >= 30 {
        assert(out@ =~= s@);
    }
    out
}

/// The warning line for a discovery error: `warning: <dir>: <err>`.
pub open spec fn warning_line(e: SkillError) -> Seq<char> {
    "warning: "@ + e.dir@ + ": "@ + e.err@
}

/// The listing line of a skill: the padded directory name and the description, or the
/// bare directory name when there is no description.
pub open spec fn list_line(s: Skill) -> Seq<char> {
    if s.description@.len() > 0 {
        pad30(s.dir@) + " "@ + s.description@
    } else {
        s.dir@
    }
}

/// A skill's listing line starts with its directory name and ends with its description
/// (when there is one), with at least one space between and the description starting at
/// column 31 or later; without a description the line is the directory name alone.
pub proof fn law_list_line_shows_dir_and_description(s: Skill)
    ensures
        s.description@.len() > 0 ==> {
            let l = list_line(s);
            let d = s.dir@;
            let t = s.description@;
            let w = if d.len() >= 30 {
                d.len() as int
            } else {
                30
            };
            &&& l.len() == w + 1 + t.len()
            &&& l.take(d.len() as int) == d
            &&& l.skip(w + 1) == t
            &&& forall|i: int| d.len() <= i <= w ==> #[trigger] l[i] == ' '
        },
        s.description@.len() == 0 ==> list_line(s) == s.dir@,
{
    if s.description@.len() > 0 {
        reveal_strlit(" ");
        let l = list_line(s);
        let d = s.dir@;
        let t = s.description@;
        let w = if d.len() >= 30 {
            d.len() as int
        } else {
            30
        };
        assert(pad30(d).len() == w);
        assert(" "@ =~= seq![' ']);
        assert(l =~= pad30(d) + seq![' '] + t);
        assert(l.take(d.len() as int) =~= d);
        assert(l.skip(w + 1) =~= t);
        assert forall|i: int| d.len() <= i <= w implies #[trigger] l[i] == ' ' by {
            if i < w {
                assert(l[i] == pad30(d)[i]);
                assert(d.len() < 30);
                assert(pad30(d)[i] == Seq::new((30 - d.len()) as nat, |j: int| ' ')[i - d.len()]);
            }
        }
    }
}

fn warning_lines(errors: &Vec<SkillError>) -> (r: Vec<String>)
    ensures
        views(r@) == errors@.map_values(|e: SkillError| warning_line(e)),
{
    let mut out: Vec<String> = Vec::new();
    let n = errors.len();
    let mut i: usize = 0;
    while i < n
        invariant
            n == errors@.len(),
            0 <= i <= n,
            views(out@) == errors@.take(i as int).map_values(|e: SkillError| warning_line(e)),
        decreases n - i,
    {
        let line = concat("warning: ", errors[i].message().as_str());
        proof {
            assert(("warning: "@ + (errors@[i as int].dir@ + ": "@ + errors@[i as int].err@))
                =~= warning_line(errors@[i as int]));
        }
        let ghost before = views(out@);
        out.push(line);
        proof {
            assert(views(out@) =~= before.push(warning_line(errors@[i as int])));
            assert(errors@.take(i + 1).map_values(|e: SkillError| warning_line(e)) =~= errors@.take(
                i as int,
            ).map_values(|e: SkillError| warning_line(e)).push(warning_line(errors@[i as int])));
        }
        i = i + 1;
    }
    assert(errors@.take(n as int) =~= errors@);
    out
}

/// What `skills list` prints: a warning per discovery error on standard error; the
/// listing of the skills, or `no skills found`, on standard output.
pub fn list_report(skills: &Vec<Skill>, errors: &Vec<SkillError>) -> (r: Report)
    ensures
        views(r.err@) == errors@.map_values(|e: SkillError| warning_line(e)),
        skills@.len() == 0 ==> views(r.out@) == seq!["no skills found"@],
        skills@.len() > 0 ==> views(r.out@) == skills@.map_values(|s: Skill| list_line(s)),
{
    let err = warning_lines(errors);
    let mut out: Vec<String> = Vec::new();
    let n = skills.len();
    if n == 0 {
        out.push("no skills found".to_string());
        assert(views(out@) =~= seq!["no skills found"@]);
        return Report { out, err };
    }
    let mut i: usize = 0;
    while i < n
        invariant
            n == skills@.len(),
            0 <= i <= n,
            views(out@) == skills@.take(i as int).map_values(|s: Skill| list_line(s)),
        decreases n - i,
    {
        let sk = &skills[i];
        let line = if sk.description.as_str().unicode_len() > 0 {
            let mut l = pad_to_30(sk.dir.as_str());
            append_str(&mut l, " ");
            append_str(&mut l, sk.description.as_str());
            l
        } else {
            sk.dir.clone()
        };
        let ghost before = views(out@);
        out.push(line);
        proof {
            assert(views(out@) =~= before.push(list_line(skills@[i as int])));
            assert(skills@.take(i + 1).map_values(|s: Skill| list_line(s)) =~= skills@.take(
                i as int,
            ).map_values(|s: Skill| list_line(s)).push(list_line(skills@[i as int])));
        }
        i = i + 1;
    }
    assert(skills@.take(n as int) =~= skills@);
    Report { out, err }
}

/// The standard-output line `skills reinstall` prints for an action, if any.
pub open spec fn reinstall_out_line(a: SkillAction, dry_run: bool) -> Seq<Seq<char>> {
    if a.action == ActionKind::Reinstalled {
        if dry_run {
            seq!["reinstalled (dry-run): "@ + a.dir@]
        } else {
            seq!["reinstalled: "@ + a.dir@]
        }
    } else {
        seq![]
    }
}

/// The standard-error line `skills reinstall` prints for an action, if any.
pub open spec fn reinstall_err_line(a: SkillAction) -> Seq<Seq<char>> {
    if a.action == ActionKind::Warned {
        seq!["warning:     "@ + a.dir@ + " — "@ + a.message@]
    } else {
        seq![]
    }
}

/// The lines of all actions, concatenated.
pub open spec fn flat_lines(acts: Seq<SkillAction>, f: spec_fn(SkillAction) -> Seq<Seq<char>>) -> Seq<
    Seq<char>,
>
    decreases acts.len(),
{
    if acts.len() == 0 {
        Seq::empty()
    } else {
        flat_lines(acts.drop_last(), f) + f(acts.last())
    }
}

/// What `skills reinstall` prints for the actions of a copy: the reinstalled skills on
/// standard output (then, in a dry run, `[dry-run] no changes were made`), the warnings on
/// standard error.
pub fn reinstall_report(actions: &Vec<SkillAction>, dry_run: bool) -> (r: Report)
    ensures
        views(r.out@) == flat_lines(actions@, |a: SkillAction| reinstall_out_line(a, dry_run))
            + (if dry_run {
            seq!["[dry-run] no changes were made"@]
        } else {
            Seq::<Seq<char>>::empty()
        }),
        views(r.err@) == flat_lines(actions@, |a: SkillAction| reinstall_err_line(a)),
{
    let ghost fo = |a: SkillAction| reinstall_out_line(a, dry_run);
    let ghost fe = |a: SkillAction| reinstall_err_line(a);
    let mut out: Vec<String> = Vec::new();
    let mut err: Vec<String> = Vec::new();
    let n = actions.len();
    let mut i: usize = 0;
    while i < n
        invariant
            n == actions@.len(),
            0 <= i <= n,
            fo == (|a: SkillAction| reinstall_out_line(a, dry_run)),
            fe == (|a: SkillAction| reinstall_err_line(a)),
            views(out@) == flat_lines(actions@.take(i as int), fo),
            views(err@) == flat_lines(actions@.take(i as int), fe),
        decreases n - i,
    {
        let a = &actions[i];
        let ghost bo = views(out@);
        let ghost be = views(err@);
        proof {
            assert(actions@.take(i + 1).drop_last() =~= actions@.take(i as int));
            assert(actions@.take(i + 1).last() == actions@[i as int]);
        }
        match a.action {
            ActionKind::Reinstalled => {
                if dry_run {
                    out.push(concat("reinstalled (dry-run): ", a.dir.as_str()));
                } else {
                    out.push(concat("reinstalled: ", a.dir.as_str()));
                }
                assert(views(out@) =~= bo + fo(*a));
                assert(views(err@) =~= be + fe(*a));
            },
            ActionKind::Warned => {
                let mut l = concat("warning:     ", a.dir.as_str());
                append_str(&mut l, " — ");
                append_str(&mut l, a.message.as_str());
                err.push(l);
                assert(views(out@) =~= bo + fo(*a));
                assert(views(err@) =~= be + fe(*a));
            },
            _ => {
                assert(views(out@) =~= bo + fo(*a));
                assert(views(err@) =~= be + fe(*a));
            },
        }
        i = i + 1;
    }
    assert(actions@.take(n as int) =~= actions@);
    let ghost bo = views(out@);
    if dry_run {
        out.push("[dry-run] no changes were made".to_string());
    }
    assert(views(out@) =~= bo + (if dry_run {
        seq!["[dry-run] no changes were made"@]
    } else {
        Seq::<Seq<char>>::empty()
    }));
    Report { out, err }
}

/// What the status subcommand found for an installed skill.
#[derive(Debug)]
pub enum InstallState {
    /// Not managed (no metadata file).
    NotInstalled,
    /// Managed, installed at this version.
    Installed(String),
    /// Managed, but the metadata could not be read; the error's text.
    Unreadable(String),
}

/// The status line of one skill.
pub open spec fn status_line_spec(dir: Seq<char>, current: Seq<char>, state: InstallState) -> Seq<
    char,
> {
    match state {
        InstallState::NotInstalled => pad30(dir) + " not installed"@,
        InstallState::Installed(v) => if up_to_date(v@, current) {
            pad30(dir) + " installed "@ + v@ + " (up to date)"@
        } else {
            pad30(dir) + " installed "@ + v@ + " → available "@ + current
        },
        InstallState::Unreadable(e) => pad30(dir) + " installed (metadata unreadable: "@ + e@
            + ")"@,
    }
}

/// The line `skills status` prints for a skill, given the version on offer.
pub fn status_line(dir: &str, current: &str, state: &InstallState) -> (r: String)
    ensures
        r@ == status_line_spec(dir@, current@, *state),
{
    let mut l = pad_to_30(dir);
    match state {
        InstallState::NotInstalled => {
            append_str(&mut l, " not installed");
        },
        InstallState::Installed(v) => {
            append_str(&mut l, " installed ");
            append_str(&mut l, v.as_str());
            if crate::versions::is_up_to_date(v.as_str(), current) {
                append_str(&mut l, " (up to date)");
            } else {
                append_str(&mut l, " → available ");
                append_str(&mut l, current);
            }
        },
        InstallState::Unreadable(e) => {
            append_str(&mut l, " installed (metadata unreadable: ");
            append_str(&mut l, e.as_str());
            append_str(&mut l, ")");
        },
    }
    l
}

/// What `skills uninstall` does with one skill.
#[derive(Debug)]
pub enum UninstallStep {
    /// Print this line and leave the skill alone.
    Report(String),
    /// Remove the skill's directory.
    Remove,
}

/// Decides what `skills uninstall` does with a skill: unmanaged skills are skipped, a dry
/// run only reports, otherwise the skill is removed.
pub fn uninstall_step(dir: &str, tool: &str, managed: bool, dry_run: bool) -> (r: UninstallStep)
    ensures
        !managed ==> (r matches UninstallStep::Report(l) && l@ == "skipped:     "@ + dir@
            + " — not managed by "@ + tool@),
        managed && dry_run ==> (r matches UninstallStep::Report(l) && l@
            == "uninstalled (dry-run): "@ + dir@),
        managed && !dry_run ==> r is Remove,
{
    if !managed {
        let mut l = concat("skipped:     ", dir);
        append_str(&mut l, " — not managed by ");
        append_str(&mut l, tool);
        return UninstallStep::Report(l);
    }
    if dry_run {
        return UninstallStep::Report(concat("uninstalled (dry-run): ", dir));
    }
    UninstallStep::Remove
}

} // verus!
