//! The local logs of executed commands: where they live and how an entry is removed.
use vstd::prelude::*;
use crate::config::{app_dir, oref, ostr, xdg_base};
use crate::json::{json_str_field, json_string_field};
use crate::resolve::{join_path, path_join};
use crate::text::{
    append_str, chars_of, concat, lemma_lines_concat, lemma_lines_have_no_newline,
    lemma_lines_of_one_line, line_bounds, lines, lines_from, push_char, str_eq,
    string_from_range,
};

verus! {

/// The state directory, from the values of `XDG_STATE_HOME` and `HOME` (one of them must
/// be set): `$XDG_STATE_HOME/slacli`, or `$HOME/.local/state/slacli`.
pub fn state_dir(xdg_state_home: Option<&str>, home: Option<&str>) -> (r: String)
    requires
        xdg_state_home.is_some() || home.is_some(),
    ensures
        r@ == path_join(xdg_base(oref(xdg_state_home), oref(home), ".local/state"@), "slacli"@),
{
    app_dir(xdg_state_home, home, ".local/state")
}

/// The log file of a log type: `<state dir>/logs/<type>.jsonl`.
pub open spec fn log_path_spec(state_dir: Seq<char>, log_type: Seq<char>) -> Seq<char> {
    path_join(path_join(state_dir, "logs"@), log_type + ".jsonl"@)
}

/// The log file of a log type under the given state directory.
pub fn log_path(state_dir: &str, log_type: &str) -> (r: String)
    ensures
        r@ == log_path_spec(state_dir@, log_type@),
{
    let logs = join_path(state_dir, "logs");
    let file = concat(log_type, ".jsonl");
    join_path(logs.as_str(), file.as_str())
}

/// Whether a log line records the message `ts` in `channel`.
pub open spec fn is_entry_for(line: Seq<char>, channel: Seq<char>, ts: Seq<char>) -> bool {
    json_str_field(line, "channel"@) == Some(channel) && json_str_field(line, "ts"@) == Some(ts)
}

/// The lines that do not record the message `ts` in `channel`, in order.
pub open spec fn kept_lines(ls: Seq<Seq<char>>, channel: Seq<char>, ts: Seq<char>) -> Seq<
    Seq<char>,
>
    decreases ls.len(),
{
    if ls.len() == 0 {
        seq![]
    } else {
        let rest = kept_lines(ls.drop_last(), channel, ts);
        if is_entry_for(ls.last(), channel, ts) {
            rest
        } else {
            rest.push(ls.last())
        }
    }
}

/// Lines written out, each followed by a newline.
pub open spec fn with_newlines(ls: Seq<Seq<char>>) -> Seq<char>
    decreases ls.len(),
{
    if ls.len() == 0 {
        seq![]
    } else {
        with_newlines(ls.drop_last()) + ls.last() + seq!['\n']
    }
}

/// The log after removing the entries of the message `ts` in `channel`: `None` when no line
/// is left (the file is removed), else the remaining lines, each ended by a newline.
pub open spec fn remaining_log_spec(content: Seq<char>, channel: Seq<char>, ts: Seq<char>) -> Option<
    Seq<char>,
> {
    let kept = kept_lines(lines(content), channel, ts);
    if kept.len() == 0 {
        None
    } else {
        Some(with_newlines(kept))
    }
}

/// Removes from a log's content the lines of the message `ts` in `channel`.
pub fn remaining_log(content: &str, channel: &str, ts: &str) -> (r: Option<String>)
    ensures
        ostr(r) == remaining_log_spec(content@, channel@, ts@),
{
    let cs = chars_of(content);
    let mut out = String::new();
    let mut any = false;
    let mut i: usize = 0;
    let ghost mut done: Seq<Seq<char>> = seq![];
    while i < cs.len()
        invariant
            cs@ == content@,
            i <= cs@.len(),
            lines(cs@) == done + lines_from(cs@, i as int),
            out@ == with_newlines(kept_lines(done, channel@, ts@)),
            any == (kept_lines(done, channel@, ts@).len() > 0),
        decreases cs@.len() - i,
    {
        let (e, next) = line_bounds(&cs, i);
        let line = string_from_range(&cs, i, e);
        let ch = json_string_field(line.as_str(), "channel");
        let t = json_string_field(line.as_str(), "ts");
        let matches = match (&ch, &t) {
            (Some(c), Some(x)) => str_eq(c.as_str(), channel) && str_eq(x.as_str(), ts),
            _ => false,
        };
        proof {
            let l = line@;
            assert((done + seq![l] + lines_from(cs@, next as int)) =~= (done + (seq![l]
                + lines_from(cs@, next as int))));
            assert((done + seq![l]).drop_last() =~= done);
            assert((done + seq![l]).last() == l);
            assert(matches == is_entry_for(l, channel@, ts@));
        }
        if !matches {
            let ghost k = kept_lines(done, channel@, ts@);
            append_str(&mut out, line.as_str());
            push_char(&mut out, '\n');
            proof {
                assert(k.push(line@).drop_last() =~= k);
                assert(out@ =~= with_newlines(k) + line@ + seq!['\n']);
            }
            any = true;
        }
        proof {
            done = done + seq![line@];
        }
        i = next;
    }
    proof {
        assert(lines_from(cs@, i as int) == Seq::<Seq<char>>::empty());
        assert(done =~= lines(cs@));
    }
    if any {
        Some(out)
    } else {
        None
    }
}

/// Removing the entries of a message keeps every other line, in order, and no line that
/// records that message.
pub proof fn law_removal_keeps_exactly_other_lines(
    ls: Seq<Seq<char>>,
    channel: Seq<char>,
    ts: Seq<char>,
)
    ensures
        kept_lines(ls, channel, ts) == ls.filter(|l: Seq<char>| !is_entry_for(l, channel, ts)),
        forall|i: int|
            0 <= i < kept_lines(ls, channel, ts).len() ==> !is_entry_for(
                #[trigger] kept_lines(ls, channel, ts)[i],
                channel,
                ts,
            ),
    decreases ls.len(),
{
    let p = |l: Seq<char>| !is_entry_for(l, channel, ts);
    reveal(Seq::filter);
    if ls.len() > 0 {
        law_removal_keeps_exactly_other_lines(ls.drop_last(), channel, ts);
    }
    let k = kept_lines(ls, channel, ts);
    assert(k == ls.filter(p));
    assert forall|i: int| 0 <= i < k.len() implies !is_entry_for(#[trigger] k[i], channel, ts) by {
        ls.lemma_filter_pred(p, i);
    }
}

/// Lines written out with newlines read back as the same lines, when none holds a newline
/// or ends in a carriage return.
proof fn lemma_lines_of_written(ls: Seq<Seq<char>>)
    requires
        forall|i: int| 0 <= i < ls.len() ==> !(#[trigger] ls[i]).contains('\n'),
        forall|i: int| 0 <= i < ls.len() ==> !((#[trigger] ls[i]).len() > 0 && ls[i].last() == '\r'),
    ensures
        lines(with_newlines(ls)) == ls,
        with_newlines(ls).len() == 0 || with_newlines(ls).last() == '\n',
    decreases ls.len(),
{
    if ls.len() > 0 {
        let front = ls.drop_last();
        let l = ls.last();
        assert(l == ls[ls.len() - 1]);
        lemma_lines_of_written(front);
        let w = with_newlines(front);
        let y = l + seq!['\n'];
        assert(with_newlines(ls) =~= w + y);
        lemma_lines_concat(w, y, 0);
        lemma_lines_of_one_line(l);
        assert(ls =~= front + seq![l]);
    } else {
        assert(lines(with_newlines(ls)) =~= Seq::<Seq<char>>::empty());
    }
}

/// What is kept satisfies what all the lines satisfy.
proof fn lemma_kept_lines_preserve(ls: Seq<Seq<char>>, channel: Seq<char>, ts: Seq<char>)
    ensures
        (forall|i: int| 0 <= i < ls.len() ==> !(#[trigger] ls[i]).contains('\n')) ==> (forall|i: int|
            0 <= i < kept_lines(ls, channel, ts).len() ==> !(#[trigger] kept_lines(
                ls,
                channel,
                ts,
            )[i]).contains('\n')),
        kept_lines(ls, channel, ts).len() <= ls.len(),
    decreases ls.len(),
{
    if ls.len() > 0 {
        lemma_kept_lines_preserve(ls.drop_last(), channel, ts);
        if forall|i: int| 0 <= i < ls.len() ==> !(#[trigger] ls[i]).contains('\n') {
            assert forall|i: int| 0 <= i < ls.drop_last().len() implies !(
            #[trigger] ls.drop_last()[i]).contains('\n') by {
                assert(ls.drop_last()[i] == ls[i]);
            }
            assert(ls.last() == ls[ls.len() - 1]);
        }
    }
}

/// Lines none of which records the message are all kept.
proof fn lemma_kept_lines_of_kept(ls: Seq<Seq<char>>, channel: Seq<char>, ts: Seq<char>)
    requires
        forall|i: int| 0 <= i < ls.len() ==> !is_entry_for(#[trigger] ls[i], channel, ts),
    ensures
        kept_lines(ls, channel, ts) == ls,
    decreases ls.len(),
{
    if ls.len() > 0 {
        assert forall|i: int| 0 <= i < ls.drop_last().len() implies !is_entry_for(
            #[trigger] ls.drop_last()[i],
            channel,
            ts,
        ) by {
            assert(ls.drop_last()[i] == ls[i]);
        }
        lemma_kept_lines_of_kept(ls.drop_last(), channel, ts);
        assert(ls.last() == ls[ls.len() - 1]);
        assert(ls.drop_last().push(ls.last()) =~= ls);
    }
}

/// Removing a message's entries twice leaves the log as removing them once, as long as no
/// remaining line ends in a carriage return (such a line loses it when read back).
pub proof fn law_removal_is_idempotent(content: Seq<char>, channel: Seq<char>, ts: Seq<char>)
    requires
        remaining_log_spec(content, channel, ts) is Some,
        forall|i: int|
            0 <= i < kept_lines(lines(content), channel, ts).len() ==> !((#[trigger] kept_lines(
                lines(content),
                channel,
                ts,
            )[i]).len() > 0 && kept_lines(lines(content), channel, ts)[i].last() == '\r'),
    ensures
        remaining_log_spec(remaining_log_spec(content, channel, ts)->Some_0, channel, ts)
            == remaining_log_spec(content, channel, ts),
{
    let k = kept_lines(lines(content), channel, ts);
    lemma_lines_have_no_newline(content, 0);
    lemma_kept_lines_preserve(lines(content), channel, ts);
    law_removal_keeps_exactly_other_lines(lines(content), channel, ts);
    lemma_lines_of_written(k);
    lemma_kept_lines_of_kept(k, channel, ts);
}

} // verus!
