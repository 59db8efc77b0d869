//! Installing, updating and reinstalling skills: what to do with each skill, and the record of
//! what was done.
use vstd::prelude::*;
use crate::text::{append_str, debug_quote, debug_str};
use crate::versions::{compare_versions_safe, version_order};

verus! {

/// Controls install/update/reinstall behavior.
#[derive(Debug, Clone, Copy, PartialEq, Eq, Structural)]
pub enum CopyMode {
    Install,
    Update,
    Reinstall,
}

/// Options for copying skills.
#[derive(Debug, Clone)]
pub struct CopyOptions {
    pub mode: CopyMode,
    pub force: bool,
    pub dry_run: bool,
    pub name: String,
    pub version: String,
}

/// The kind of action taken for a single skill.
#[derive(Debug, Clone, Copy, PartialEq, Eq, Structural)]
pub enum ActionKind {
    Installed,
    Updated,
    Reinstalled,
    Skipped,
    Warned,
}

/// Describes what happened to a single skill.
#[derive(Debug, Clone)]
pub struct SkillAction {
    pub dir: String,
    pub action: ActionKind,
    pub message: String,
}

/// The next step for one skill: stop with an action and a message, or copy it and record
/// the given action.
#[derive(Debug)]
pub enum CopyStep {
    Done(ActionKind, String),
    Proceed(ActionKind),
}

/// The view of a `CopyStep`.
pub enum CopyStepSpec {
    Done(ActionKind, Seq<char>),
    Proceed(ActionKind),
}

impl CopyStep {
    pub open spec fn spec(&self) -> CopyStepSpec {
        match self {
            CopyStep::Done(k, m) => CopyStepSpec::Done(*k, m@),
            CopyStep::Proceed(k) => CopyStepSpec::Proceed(*k),
        }
    }
}

/// The action a completed copy records in each mode.
pub open spec fn mode_label(mode: CopyMode) -> ActionKind {
    match mode {
        CopyMode::Install => ActionKind::Installed,
        CopyMode::Update => ActionKind::Updated,
        CopyMode::Reinstall => ActionKind::Reinstalled,
    }
}

/// The past participle used in dry-run messages.
pub open spec fn mode_word(mode: CopyMode) -> Seq<char> {
    match mode {
        CopyMode::Install => "installed"@,
        CopyMode::Update => "updated"@,
        CopyMode::Reinstall => "reinstalled"@,
    }
}

/// Where the decision stops short of copying: the action and its message. `installed` is
/// the version recorded in the skill's metadata, when it could be read.
pub open spec fn copy_stop(
    opts: CopyOptions,
    dir: Seq<char>,
    dest_exists: bool,
    managed: bool,
    installed: Option<Seq<char>>,
) -> Option<(ActionKind, Seq<char>)> {
    let q = debug_str(dir);
    match opts.mode {
        CopyMode::Install => {
            if dest_exists && !managed && !opts.force {
                Some(
                    (
                        ActionKind::Warned,
                        "skill "@ + q + " exists but is not managed by "@ + opts.name@
                            + "; use --force to overwrite"@,
                    ),
                )
            } else if dest_exists && managed {
                Some(
                    (
                        ActionKind::Skipped,
                        "skill "@ + q
                            + " already installed (use 'update' or 'reinstall' to refresh)"@,
                    ),
                )
            } else {
                None
            }
        },
        CopyMode::Update => {
            if !managed {
                Some((ActionKind::Skipped, "skill "@ + q + " is not managed by "@ + opts.name@))
            } else {
                match installed {
                    Some(v) => match version_order(v, opts.version@) {
                        Some(c) => if c == 0 {
                            Some(
                                (
                                    ActionKind::Skipped,
                                    "skill "@ + q + " is already at version "@ + debug_str(v)
                                        + " (>= "@ + debug_str(opts.version@) + ")"@,
                                ),
                            )
                        } else {
                            None
                        },
                        None => if v == opts.version@ {
                            Some(
                                (
                                    ActionKind::Skipped,
                                    "skill "@ + q + " is already at version "@ + debug_str(v),
                                ),
                            )
                        } else {
                            None
                        },
                    },
                    None => None,
                }
            }
        },
        CopyMode::Reinstall => {
            if !managed {
                if !opts.force {
                    Some(
                        (
                            ActionKind::Warned,
                            "skill "@ + q + " is not managed by "@ + opts.name@
                                + "; use --force to overwrite"@,
                        ),
                    )
                } else {
                    None
                }
            } else {
                match installed {
                    Some(v) => if version_order(v, opts.version@) == Some(1i8) && !opts.force {
                        Some(
                            (
                                ActionKind::Skipped,
                                "skill "@ + q + " has newer version "@ + debug_str(v) + " (> "@
                                    + debug_str(opts.version@) + "); use --force to downgrade"@,
                            ),
                        )
                    } else {
                        None
                    },
                    None => None,
                }
            }
        },
    }
}

/// The decision for one skill: a stop, a dry-run report, or a copy.
pub open spec fn copy_plan(
    opts: CopyOptions,
    dir: Seq<char>,
    dest_exists: bool,
    managed: bool,
    installed: Option<Seq<char>>,
) -> CopyStepSpec {
    match copy_stop(opts, dir, dest_exists, managed, installed) {
        Some((k, m)) => CopyStepSpec::Done(k, m),
        None => if opts.dry_run {
            CopyStepSpec::Done(
                mode_label(opts.mode),
                "[dry-run] would "@ + mode_word(opts.mode) + " skill "@ + debug_str(dir),
            )
        } else {
            CopyStepSpec::Proceed(mode_label(opts.mode))
        },
    }
}

/// The view of an optional string slice.
pub open spec fn opt_str_view(o: Option<&str>) -> Option<Seq<char>> {
    match o {
        Some(v) => Some(v@),
        None => None,
    }
}

/// `s` with `a` and `b` appended in order.
fn push_all(s: &mut String, a: &str, b: &str)
    ensures
        final(s)@ == old(s)@ + a@ + b@,
{
    append_str(s, a);
    append_str(s, b);
}

/// Decides what to do with one skill before any file is touched.
///
/// `dest_exists` and `managed` describe the destination directory; `installed` is the
/// version in its metadata when that could be read (only consulted for managed skills).
pub fn plan_copy(
    opts: &CopyOptions,
    dir: &str,
    dest_exists: bool,
    managed: bool,
    installed: Option<&str>,
) -> (r: CopyStep)
    ensures
        r.spec() == copy_plan(*opts, dir@, dest_exists, managed, opt_str_view(installed)),
{
    let q = debug_quote(dir);
    let ghost iv = opt_str_view(installed);
    match opts.mode {
        CopyMode::Install => {
            if dest_exists && !managed && !opts.force {
                let mut m = "skill ".to_string();
                push_all(&mut m, q.as_str(), " exists but is not managed by ");
                push_all(&mut m, opts.name.as_str(), "; use --force to overwrite");
                return CopyStep::Done(ActionKind::Warned, m);
            } else if dest_exists && managed {
                let mut m = "skill ".to_string();
                push_all(
                    &mut m,
                    q.as_str(),
                    " already installed (use 'update' or 'reinstall' to refresh)",
                );
                return CopyStep::Done(ActionKind::Skipped, m);
            }
        },
        CopyMode::Update => {
            if !managed {
                let mut m = "skill ".to_string();
                push_all(&mut m, q.as_str(), " is not managed by ");
                append_str(&mut m, opts.name.as_str());
                return CopyStep::Done(ActionKind::Skipped, m);
            }
            if let Some(v) = installed {
                let (cmp, ok) = compare_versions_safe(v, opts.version.as_str());
                if ok {
                    let same = match cmp {
                        std::cmp::Ordering::Equal => true,
                        _ => false,
                    };
                    if same {
                        let mut m = "skill ".to_string();
                        push_all(&mut m, q.as_str(), " is already at version ");
                        push_all(&mut m, debug_quote(v).as_str(), " (>= ");
                        push_all(&mut m, debug_quote(opts.version.as_str()).as_str(), ")");
                        return CopyStep::Done(ActionKind::Skipped, m);
                    }
                } else if crate::text::str_eq(v, opts.version.as_str()) {
                    let mut m = "skill ".to_string();
                    push_all(&mut m, q.as_str(), " is already at version ");
                    append_str(&mut m, debug_quote(v).as_str());
                    return CopyStep::Done(ActionKind::Skipped, m);
                }
            }
        },
        CopyMode::Reinstall => {
            if !managed {
                if !opts.force {
                    let mut m = "skill ".to_string();
                    push_all(&mut m, q.as_str(), " is not managed by ");
                    push_all(&mut m, opts.name.as_str(), "; use --force to overwrite");
                    return CopyStep::Done(ActionKind::Warned, m);
                }
            } else if let Some(v) = installed {
                let (cmp, ok) = compare_versions_safe(v, opts.version.as_str());
                let newer = match cmp {
                    std::cmp::Ordering::Greater => true,
                    _ => false,
                };
                if ok && newer && !opts.force {
                    let mut m = "skill ".to_string();
                    push_all(&mut m, q.as_str(), " has newer version ");
                    push_all(&mut m, debug_quote(v).as_str(), " (> ");
                    push_all(
                        &mut m,
                        debug_quote(opts.version.as_str()).as_str(),
                        "); use --force to downgrade",
                    );
                    return CopyStep::Done(ActionKind::Skipped, m);
                }
            }
        },
    }
    assert(copy_stop(*opts, dir@, dest_exists, managed, iv) is None);
    let label = match opts.mode {
        CopyMode::Install => ActionKind::Installed,
        CopyMode::Update => ActionKind::Updated,
        CopyMode::Reinstall => ActionKind::Reinstalled,
    };
    if opts.dry_run {
        let word = match opts.mode {
            CopyMode::Install => "installed",
            CopyMode::Update => "updated",
            CopyMode::Reinstall => "reinstalled",
        };
        let mut m = "[dry-run] would ".to_string();
        push_all(&mut m, word, " skill ");
        append_str(&mut m, q.as_str());
        return CopyStep::Done(label, m);
    }
    CopyStep::Proceed(label)
}

} // verus!

verus! {

/// A dry run never copies anything: every skill ends in a report.
pub proof fn law_dry_run_copies_nothing(
    opts: CopyOptions,
    dir: Seq<char>,
    dest_exists: bool,
    managed: bool,
    installed: Option<Seq<char>>,
)
    requires
        opts.dry_run,
    ensures
        copy_plan(opts, dir, dest_exists, managed, installed) is Done,
{
}

/// A dry run decides as the real run does: where the real run stops, the dry run stops
/// with the same action and message; where the real run copies, the dry run reports that
/// same action without copying.
pub proof fn law_dry_run_mirrors_real_run(
    dry: CopyOptions,
    run: CopyOptions,
    dir: Seq<char>,
    dest_exists: bool,
    managed: bool,
    installed: Option<Seq<char>>,
)
    requires
        dry.dry_run,
        !run.dry_run,
        dry.mode == run.mode,
        dry.force == run.force,
        dry.name == run.name,
        dry.version == run.version,
    ensures
        copy_plan(run, dir, dest_exists, managed, installed) is Done ==> copy_plan(
            dry,
            dir,
            dest_exists,
            managed,
            installed,
        ) == copy_plan(run, dir, dest_exists, managed, installed),
        copy_plan(run, dir, dest_exists, managed, installed) matches CopyStepSpec::Proceed(k) ==> (
        copy_plan(dry, dir, dest_exists, managed, installed) matches CopyStepSpec::Done(k2, _)
            && k2 == k),
{
}

/// A copy is recorded under the action of its mode.
pub proof fn law_copy_label_matches_mode(
    opts: CopyOptions,
    dir: Seq<char>,
    dest_exists: bool,
    managed: bool,
    installed: Option<Seq<char>>,
)
    ensures
        copy_plan(opts, dir, dest_exists, managed, installed) matches CopyStepSpec::Proceed(k)
            ==> k == mode_label(opts.mode),
{
}

/// Install skips what exists: a managed skill is never overwritten, and an unmanaged one
/// only with `--force`.
pub proof fn law_install_keeps_existing(
    opts: CopyOptions,
    dir: Seq<char>,
    managed: bool,
    installed: Option<Seq<char>>,
)
    requires
        opts.mode == CopyMode::Install,
        managed || !opts.force,
    ensures
        copy_plan(opts, dir, true, managed, installed) matches CopyStepSpec::Done(k, _) && (k
            == ActionKind::Skipped || k == ActionKind::Warned),
{
}

/// Install copies every skill whose destination does not exist yet.
pub proof fn law_install_copies_missing(
    opts: CopyOptions,
    dir: Seq<char>,
    installed: Option<Seq<char>>,
)
    requires
        opts.mode == CopyMode::Install,
        !opts.dry_run,
    ensures
        copy_plan(opts, dir, false, false, installed) == CopyStepSpec::Proceed(
            ActionKind::Installed,
        ),
{
}

/// Update touches managed skills only.
pub proof fn law_update_only_managed(
    opts: CopyOptions,
    dir: Seq<char>,
    dest_exists: bool,
    managed: bool,
    installed: Option<Seq<char>>,
)
    requires
        opts.mode == CopyMode::Update,
        !managed,
    ensures
        copy_plan(opts, dir, dest_exists, managed, installed) matches CopyStepSpec::Done(k, _)
            && k == ActionKind::Skipped,
{
}

/// The recorded version is the same as the offered one: semantically equal when both are
/// valid semantic versions (one leading `v` ignored), else the same text.
pub open spec fn same_version(installed: Seq<char>, offered: Seq<char>) -> bool {
    match version_order(installed, offered) {
        Some(c) => c == 0,
        None => installed == offered,
    }
}

/// Update replaces a managed skill with a readable version exactly when that version differs
/// from the offered one, older or newer.
pub proof fn law_update_when_version_differs(
    opts: CopyOptions,
    dir: Seq<char>,
    dest_exists: bool,
    v: Seq<char>,
)
    requires
        opts.mode == CopyMode::Update,
        !opts.dry_run,
    ensures
        (copy_plan(opts, dir, dest_exists, true, Some(v)) is Proceed) <==> !same_version(
            v,
            opts.version@,
        ),
{
}

/// Reinstall without `--force` leaves unmanaged skills alone and never downgrades.
pub proof fn law_reinstall_without_force(
    opts: CopyOptions,
    dir: Seq<char>,
    dest_exists: bool,
    managed: bool,
    installed: Option<Seq<char>>,
)
    requires
        opts.mode == CopyMode::Reinstall,
        !opts.force,
    ensures
        copy_plan(opts, dir, dest_exists, managed, installed) is Proceed ==> managed && !(
        installed matches Some(v) && version_order(v, opts.version@) == Some(1i8)),
{
}

/// Reinstall without `--force` copies a managed skill unless its recorded version is
/// semantically newer than the offered one: an older, equal, unparsable or unreadable
/// version is reinstalled.
pub proof fn law_reinstall_managed_not_newer(
    opts: CopyOptions,
    dir: Seq<char>,
    dest_exists: bool,
    installed: Option<Seq<char>>,
)
    requires
        opts.mode == CopyMode::Reinstall,
        !opts.force,
        !opts.dry_run,
        !(installed matches Some(v) && version_order(v, opts.version@) == Some(1i8)),
    ensures
        copy_plan(opts, dir, dest_exists, true, installed) == CopyStepSpec::Proceed(
            ActionKind::Reinstalled,
        ),
{
}

/// Reinstall with `--force` copies every skill (outside a dry run).
pub proof fn law_reinstall_with_force(
    opts: CopyOptions,
    dir: Seq<char>,
    dest_exists: bool,
    managed: bool,
    installed: Option<Seq<char>>,
)
    requires
        opts.mode == CopyMode::Reinstall,
        opts.force,
        !opts.dry_run,
    ensures
        copy_plan(opts, dir, dest_exists, managed, installed) == CopyStepSpec::Proceed(
            ActionKind::Reinstalled,
        ),
{
}

} // verus!

verus! {

/// Summarizes the outcome of copying skills.
#[derive(Debug)]
pub struct CopyResult {
    pub actions: Vec<SkillAction>,
}

impl Default for CopyResult {
    fn default() -> (r: Self)
        ensures
            r.actions@.len() == 0,
    {
        CopyResult { actions: Vec::new() }
    }
}

/// The actions of `acts` whose kind satisfies `p`, in order.
pub open spec fn select(acts: Seq<SkillAction>, p: spec_fn(ActionKind) -> bool) -> Seq<
    SkillAction,
>
    decreases acts.len(),
{
    if acts.len() == 0 {
        Seq::empty()
    } else if p(acts.last().action) {
        select(acts.drop_last(), p).push(acts.last())
    } else {
        select(acts.drop_last(), p)
    }
}

/// Kinds that mean the skill was written.
pub open spec fn is_copied_kind(k: ActionKind) -> bool {
    k == ActionKind::Installed || k == ActionKind::Updated || k == ActionKind::Reinstalled
}

/// The referenced actions, dereferenced.
pub open spec fn derefs(v: Seq<&SkillAction>) -> Seq<SkillAction> {
    v.map_values(|a: &SkillAction| *a)
}

/// Which filter a query applies.
pub enum ActionClass {
    Copied,
    Skipped,
    Warned,
}

/// The predicate of a class on action kinds.
pub open spec fn class_pred(c: ActionClass) -> spec_fn(ActionKind) -> bool {
    match c {
        ActionClass::Copied => |k: ActionKind| is_copied_kind(k),
        ActionClass::Skipped => |k: ActionKind| k == ActionKind::Skipped,
        ActionClass::Warned => |k: ActionKind| k == ActionKind::Warned,
    }
}

impl CopyResult {
    fn filter_class(&self, c: ActionClass) -> (r: Vec<&SkillAction>)
        ensures
            derefs(r@) == select(self.actions@, class_pred(c)),
    {
        let ghost p = class_pred(c);
        let mut out: Vec<&SkillAction> = Vec::new();
        let n = self.actions.len();
        let mut i: usize = 0;
        while i < n
            invariant
                n == self.actions@.len(),
                0 <= i <= n,
                p == class_pred(c),
                derefs(out@) == select(self.actions@.take(i as int), p),
            decreases n - i,
        {
            let a = &self.actions[i];
            let keep = match c {
                ActionClass::Copied => match a.action {
                    ActionKind::Installed | ActionKind::Updated | ActionKind::Reinstalled => true,
                    _ => false,
                },
                ActionClass::Skipped => match a.action {
                    ActionKind::Skipped => true,
                    _ => false,
                },
                ActionClass::Warned => match a.action {
                    ActionKind::Warned => true,
                    _ => false,
                },
            };
            assert(keep == p(a.action));
            let ghost before = out@;
            proof {
                assert(self.actions@.take(i + 1).drop_last() =~= self.actions@.take(i as int));
                assert(self.actions@.take(i + 1).last() == self.actions@[i as int]);
            }
            if keep {
                out.push(a);
                assert(derefs(out@) =~= derefs(before).push(*a));
            }
            i = i + 1;
        }
        assert(self.actions@.take(n as int) =~= self.actions@);
        out
    }

    /// The actions that wrote a skill (installed, updated or reinstalled), in order.
    pub fn installed(&self) -> (r: Vec<&SkillAction>)
        ensures
            derefs(r@) == select(self.actions@, |k: ActionKind| is_copied_kind(k)),
    {
        self.filter_class(ActionClass::Copied)
    }

    /// The skipped actions, in order.
    pub fn skipped(&self) -> (r: Vec<&SkillAction>)
        ensures
            derefs(r@) == select(self.actions@, |k: ActionKind| k == ActionKind::Skipped),
    {
        self.filter_class(ActionClass::Skipped)
    }

    /// The warned actions, in order.
    pub fn warned(&self) -> (r: Vec<&SkillAction>)
        ensures
            derefs(r@) == select(self.actions@, |k: ActionKind| k == ActionKind::Warned),
    {
        self.filter_class(ActionClass::Warned)
    }
}

/// Every action is reported by exactly one of `installed`, `skipped` and `warned`: their
/// counts add up to the number of actions.
pub proof fn law_action_classes_partition(acts: Seq<SkillAction>)
    ensures
        select(acts, |k: ActionKind| is_copied_kind(k)).len() + select(
            acts,
            |k: ActionKind| k == ActionKind::Skipped,
        ).len() + select(acts, |k: ActionKind| k == ActionKind::Warned).len() == acts.len(),
    decreases acts.len(),
{
    if acts.len() > 0 {
        law_action_classes_partition(acts.drop_last());
    }
}

} // verus!

verus! {

/// Lowercase hexadecimal digits.
pub open spec fn hex_digits() -> Seq<char> {
    seq!['0', '1', '2', '3', '4', '5', '6', '7', '8', '9', 'a', 'b', 'c', 'd', 'e', 'f']
}

/// Two lowercase hex digits per byte, high nibble first (`format!("{b:02x}")` for each).
pub open spec fn hex_of(bytes: Seq<u8>) -> Seq<char>
    decreases bytes.len(),
{
    if bytes.len() == 0 {
        Seq::empty()
    } else {
        let b = bytes.last();
        hex_of(bytes.drop_last()).push(hex_digits()[(b / 16) as int]).push(hex_digits()[(b % 16) as int])
    }
}

fn hex_digit(n: u8) -> (c: char)
    requires
        n < 16,
    ensures
        c == hex_digits()[n as int],
{
    let digits: [char; 16] = ['0', '1', '2', '3', '4', '5', '6', '7', '8', '9', 'a', 'b', 'c', 'd', 'e', 'f'];
    assert(digits@ =~= hex_digits());
    digits[n as usize]
}

/// Lowercase hexadecimal encoding of bytes.
pub fn encode(bytes: &[u8]) -> (r: String)
    ensures
        r@ == hex_of(bytes@),
        r@.len() == 2 * bytes@.len(),
{
    let mut out = String::new();
    let n = bytes.len();
    let mut i: usize = 0;
    while i < n
        invariant
            n == bytes@.len(),
            0 <= i <= n,
            out@ == hex_of(bytes@.take(i as int)),
            out@.len() == 2 * i,
        decreases n - i,
    {
        let b = bytes[i];
        crate::text::push_char(&mut out, hex_digit(b / 16));
        crate::text::push_char(&mut out, hex_digit(b % 16));
        proof {
            assert(bytes@.take(i + 1).drop_last() =~= bytes@.take(i as int));
            assert(bytes@.take(i + 1).last() == b);
        }
        i = i + 1;
    }
    assert(bytes@.take(n as int) =~= bytes@);
    out
}

/// Four random bytes (`rand::random`); nothing is claimed about their values.
#[verifier::external_body]
fn random_bytes() -> (r: [u8; 4]) {
    rand::random()
}

/// The name a replaced skill directory is moved to while the new copy is written:
/// `<name>.<8 hex digits>.bak`.
pub open spec fn backup_name_spec(file_name: Seq<char>, suffix: Seq<u8>) -> Seq<char> {
    file_name + seq!['.'] + hex_of(suffix) + ".bak"@
}

/// The backup name for the given random bytes.
pub fn backup_file_name_with(file_name: &str, suffix: [u8; 4]) -> (r: String)
    ensures
        r@ == backup_name_spec(file_name@, suffix@),
{
    let mut out = file_name.to_owned();
    crate::text::push_char(&mut out, '.');
    let h = encode(&suffix);
    append_str(&mut out, h.as_str());
    append_str(&mut out, ".bak");
    out
}

/// A backup name with a random suffix.
pub fn backup_file_name(file_name: &str) -> (r: String)
    ensures
        exists|suffix: Seq<u8>| suffix.len() == 4 && r@ == backup_name_spec(file_name@, suffix),
{
    let suffix = random_bytes();
    let r = backup_file_name_with(file_name, suffix);
    assert(suffix@.len() == 4);
    r
}

} // verus!

verus! {

/// The warnings that discovery errors become, one per error, in order.
pub fn discovery_warnings(errors: &Vec<crate::skill_error::SkillError>) -> (r: Vec<SkillAction>)
    ensures
        r@.len() == errors@.len(),
        forall|i: int|
            0 <= i < r@.len() ==> (#[trigger] r@[i]).dir@ == errors@[i].dir@ && r@[i].action
                == ActionKind::Warned && r@[i].message@ == errors@[i].err@,
{
    let mut out: Vec<SkillAction> = Vec::new();
    let n = errors.len();
    let mut i: usize = 0;
    while i < n
        invariant
            n == errors@.len(),
            0 <= i <= n,
            out@.len() == i,
            forall|k: int|
                0 <= k < i ==> (#[trigger] out@[k]).dir@ == errors@[k].dir@ && out@[k].action
                    == ActionKind::Warned && out@[k].message@ == errors@[k].err@,
        decreases n - i,
    {
        let se = &errors[i];
        out.push(
            SkillAction {
                dir: se.dir.clone(),
                action: ActionKind::Warned,
                message: se.err.clone(),
            },
        );
        i = i + 1;
    }
    out
}

impl CopyResult {
    /// The result that copying starts from: one warning per discovery error, in order.
    pub fn from_discovery_errors(errors: &Vec<crate::skill_error::SkillError>) -> (r: CopyResult)
        ensures
            r.actions@.len() == errors@.len(),
            forall|i: int|
                0 <= i < r.actions@.len() ==> (#[trigger] r.actions@[i]).dir@ == errors@[i].dir@
                    && r.actions@[i].action == ActionKind::Warned && r.actions@[i].message@
                    == errors@[i].err@,
    {
        CopyResult { actions: discovery_warnings(errors) }
    }

    /// Records the outcome of copying the skill in `dir`: a success is appended as an
    /// action; a failure leaves the record as it is and is handed back, which stops copying.
    pub fn record(&mut self, dir: &str, outcome: Result<(ActionKind, String), CopyError>) -> (r:
        Result<(), CopyError>)
        ensures
            match outcome {
                Ok((k, m)) => r is Ok && final(self).actions@.len() == old(self).actions@.len() + 1
                    && final(self).actions@.take(old(self).actions@.len() as int)
                    == old(self).actions@ && final(self).actions@.last().dir@ == dir@
                    && final(self).actions@.last().action == k && final(self).actions@.last().message@
                    == m@,
                Err(e) => r == Err::<(), CopyError>(e) && final(self).actions@ == old(
                    self,
                ).actions@,
            },
    {
        match outcome {
            Ok((action, message)) => {
                self.actions.push(SkillAction { dir: dir.to_string(), action, message });
                assert(self.actions@.take(old(self).actions@.len() as int) =~= old(self).actions@);
                Ok(())
            },
            Err(e) => Err(e),
        }
    }
}

/// Errors that stop copying skills.
#[derive(Debug)]
pub enum CopyError {
    /// Discovering the skills failed.
    Discover(String),
    /// Copying a skill's files failed, with the I/O error's message.
    Copy { skill: String, source: String },
    /// Any other failure.
    Other(String),
}

impl CopyError {
    /// The error's display text.
    pub fn message(&self) -> (r: String)
        ensures
            r@ == match self {
                CopyError::Discover(m) => "discovering skills: "@ + m@,
                CopyError::Copy { skill, source } => "copying skill "@ + debug_str(skill@) + ": "@
                    + source@,
                CopyError::Other(m) => m@,
            },
    {
        match self {
            CopyError::Discover(m) => {
                let mut out = "discovering skills: ".to_string();
                append_str(&mut out, m.as_str());
                out
            },
            CopyError::Copy { skill, source } => {
                let mut out = "copying skill ".to_string();
                append_str(&mut out, debug_quote(skill.as_str()).as_str());
                append_str(&mut out, ": ");
                append_str(&mut out, source.as_str());
                out
            },
            CopyError::Other(m) => m.clone(),
        }
    }

    /// The error when writing a skill's metadata fails, from the failure's message.
    pub fn metadata(skill_dir: &str, failure: &str) -> (r: CopyError)
        ensures
            r matches CopyError::Other(m) && m@ == "writing metadata for "@ + debug_str(skill_dir@)
                + ": "@ + failure@,
    {
        let mut out = "writing metadata for ".to_string();
        append_str(&mut out, debug_quote(skill_dir).as_str());
        append_str(&mut out, ": ");
        append_str(&mut out, failure);
        CopyError::Other(out)
    }
}

/// Where the copy of one skill stands, once the plan is to copy it.
#[derive(Debug)]
pub enum CopyState {
    /// Nothing is done yet; whether the destination exists.
    Begin { dest_exists: bool },
    /// The existing destination is being moved aside to a backup.
    BackingUp,
    /// The skill's files are being copied; whether a backup was taken.
    Copying { backed_up: bool },
    /// The metadata file is being written; whether a backup was taken.
    Recording { backed_up: bool },
    /// The backup of the replaced copy is being removed.
    Cleaning,
    /// The partial copy is being removed (and the backup restored); the error to report.
    RollingBack(CopyError),
    /// The copy is over.
    Finished,
}

/// The next outside step of a copy.
#[derive(Debug)]
pub enum CopyAction {
    /// Move the existing destination to a backup next to it.
    Backup,
    /// Copy the skill's files to the destination.
    CopyFiles,
    /// Write the metadata file, recording the installing tool and the version.
    WriteMetadata { installed_by: String, version: String },
    /// Remove the backup; a failure is ignored.
    RemoveBackup,
    /// Remove the partial copy, then move the backup back when `restore`; failures are ignored.
    RollBack { restore: bool },
    /// Stop with this outcome.
    Finish(Result<(ActionKind, String), CopyError>),
}

/// The view of a copy error: its display text.
pub open spec fn copy_error_text(e: CopyError) -> Seq<char> {
    match e {
        CopyError::Discover(m) => "discovering skills: "@ + m@,
        CopyError::Copy { skill, source } => "copying skill "@ + debug_str(skill@) + ": "@
            + source@,
        CopyError::Other(m) => m@,
    }
}

/// How many steps at most are left from a state.
pub open spec fn copy_steps_left(s: CopyState) -> nat {
    match s {
        CopyState::Begin { .. } => 5,
        CopyState::BackingUp => 4,
        CopyState::Copying { .. } => 3,
        CopyState::Recording { .. } => 2,
        CopyState::Cleaning => 1,
        CopyState::RollingBack(_) => 1,
        CopyState::Finished => 0,
    }
}

/// Advances the copy of the skill in `skill_dir` under `opts`, given the outcome of the last
/// step (`Ok` at the start): a failed backup ends the copy with a copy error; the metadata
/// written records `opts.name` and `opts.version`; a failed file copy or metadata write rolls
/// back, restoring the backup when one was taken, and then ends with its error; success
/// removes the backup, if any, and ends with the action of the mode.
pub fn copy_transition(
    state: CopyState,
    outcome: Result<(), String>,
    skill_dir: &str,
    opts: &CopyOptions,
) -> (r: (CopyState, CopyAction))
    ensures
        state matches CopyState::Begin { dest_exists } ==> if dest_exists {
            r.0 is BackingUp && r.1 is Backup
        } else {
            (r.0 matches CopyState::Copying { backed_up } && !backed_up) && r.1 is CopyFiles
        },
        state is BackingUp ==> match outcome {
            Ok(_) => (r.0 matches CopyState::Copying { backed_up } && backed_up) && r.1 is CopyFiles,
            Err(m) => r.0 is Finished && (r.1 matches CopyAction::Finish(
                Err(CopyError::Copy { skill, source }),
            ) && skill@ == skill_dir@ && source@ == m@),
        },
        state matches CopyState::Copying { backed_up } ==> match outcome {
            Ok(_) => (r.0 matches CopyState::Recording { backed_up: b } && b == backed_up) && (
            r.1 matches CopyAction::WriteMetadata { installed_by, version } && installed_by@
                == opts.name@ && version@ == opts.version@),
            Err(m) => (r.0 matches CopyState::RollingBack(CopyError::Copy { skill, source })
                && skill@ == skill_dir@ && source@ == m@) && (r.1 matches CopyAction::RollBack {
                restore,
            } && restore == backed_up),
        },
        state matches CopyState::Recording { backed_up } ==> match outcome {
            Ok(_) => if backed_up {
                r.0 is Cleaning && r.1 is RemoveBackup
            } else {
                r.0 is Finished && (r.1 matches CopyAction::Finish(Ok((k, m))) && k == mode_label(opts.mode)
                    && m@.len() == 0)
            },
            Err(m) => (r.0 matches CopyState::RollingBack(e) && e is Other && copy_error_text(e)
                == "writing metadata for "@ + debug_str(skill_dir@) + ": "@ + m@) && (
            r.1 matches CopyAction::RollBack { restore } && restore == backed_up),
        },
        state is Cleaning ==> r.0 is Finished && (r.1 matches CopyAction::Finish(Ok((k, m))) && k
            == mode_label(opts.mode) && m@.len() == 0),
        state matches CopyState::RollingBack(e) ==> r.0 is Finished && (
        r.1 matches CopyAction::Finish(Err(e2)) && e2 == e),
        state is Finished ==> r.0 is Finished && (r.1 matches CopyAction::Finish(Ok((k, m))) && k
            == mode_label(opts.mode) && m@.len() == 0),
        state !is Finished ==> copy_steps_left(r.0) < copy_steps_left(state),
        r.0 is Finished <==> r.1 is Finish,
{
    let label = match opts.mode {
        CopyMode::Install => ActionKind::Installed,
        CopyMode::Update => ActionKind::Updated,
        CopyMode::Reinstall => ActionKind::Reinstalled,
    };
    match state {
        CopyState::Begin { dest_exists } => {
            if dest_exists {
                (CopyState::BackingUp, CopyAction::Backup)
            } else {
                (CopyState::Copying { backed_up: false }, CopyAction::CopyFiles)
            }
        },
        CopyState::BackingUp => match outcome {
            Ok(()) => (CopyState::Copying { backed_up: true }, CopyAction::CopyFiles),
            Err(m) => (
                CopyState::Finished,
                CopyAction::Finish(Err(CopyError::Copy { skill: skill_dir.to_string(), source: m })),
            ),
        },
        CopyState::Copying { backed_up } => match outcome {
            Ok(()) => (
                CopyState::Recording { backed_up },
                CopyAction::WriteMetadata {
                    installed_by: opts.name.clone(),
                    version: opts.version.clone(),
                },
            ),
            Err(m) => (
                CopyState::RollingBack(CopyError::Copy { skill: skill_dir.to_string(), source: m }),
                CopyAction::RollBack { restore: backed_up },
            ),
        },
        CopyState::Recording { backed_up } => match outcome {
            Ok(()) => if backed_up {
                (CopyState::Cleaning, CopyAction::RemoveBackup)
            } else {
                (CopyState::Finished, CopyAction::Finish(Ok((label, String::new()))))
            },
            Err(m) => {
                let e = CopyError::metadata(skill_dir, m.as_str());
                (CopyState::RollingBack(e), CopyAction::RollBack { restore: backed_up })
            },
        },
        CopyState::Cleaning => (CopyState::Finished, CopyAction::Finish(Ok((label, String::new())))),
        CopyState::RollingBack(e) => (CopyState::Finished, CopyAction::Finish(Err(e))),
        CopyState::Finished => (CopyState::Finished, CopyAction::Finish(Ok((label, String::new())))),
    }
}

} // verus!
