//! The command line of the Slack CLI.
use vstd::prelude::*;
use crate::text::{append_str, chars_of, concat, string_from_range};

verus! {

/// The top-level command line.
#[derive(Debug)]
pub struct Cli {
    /// Print version.
    pub version: bool,
    /// Profile name (overrides `default_profile` in `config.toml`).
    pub profile: Option<String>,
    pub command: Option<Commands>,
}

/// The commands.
#[derive(Debug)]
pub enum Commands {
    /// Initialize tokens interactively.
    Init,
    /// Show configuration.
    Config { see: bool },
    /// Chat operations.
    Chat { command: ChatCommands },
    /// Profile operations.
    Profile { command: ProfileCommands },
    /// View local logs of previously executed commands.
    Logs { log_type: String, purge: bool },
}

/// The chat commands.
#[derive(Debug)]
pub enum ChatCommands {
    /// Send a message to a channel.
    Send { channel: String, text: String, thread_ts: Option<String> },
    /// Delete a message from a channel.
    Delete { channel: String, timestamp: String },
}

/// The profile commands.
#[derive(Debug)]
pub enum ProfileCommands {
    /// Edit your profile (status, name, etc.).
    Edit { fields: Vec<(String, String)> },
}

/// Index of the first `=` at or after `i`, or `s.len()` when there is none.
pub open spec fn first_eq(s: Seq<char>, i: int) -> int
    decreases s.len() - i,
{
    if i < 0 || i >= s.len() || s[i] == '=' {
        i
    } else {
        first_eq(s, i + 1)
    }
}

/// Facts about `first_eq`.
pub proof fn lemma_first_eq(s: Seq<char>, i: int)
    requires
        0 <= i <= s.len(),
    ensures
        i <= first_eq(s, i) <= s.len(),
        first_eq(s, i) < s.len() ==> s[first_eq(s, i)] == '=',
        forall|j: int| i <= j < first_eq(s, i) ==> s[j] != '=',
    decreases s.len() - i,
{
    if i < s.len() && s[i] != '=' {
        lemma_first_eq(s, i + 1);
    }
}

/// The split of `KEY=VALUE` at the first `=`, or the message for text without `=`.
pub open spec fn key_value_spec(s: Seq<char>) -> Result<(Seq<char>, Seq<char>), Seq<char>> {
    let p = first_eq(s, 0);
    if p < s.len() {
        Ok((s.take(p), s.skip(p + 1)))
    } else {
        Err("invalid KEY=VALUE: no '=' found in '"@ + s + "'"@)
    }
}

/// Parses `KEY=VALUE` at the first `=`.
pub fn parse_key_value(s: &str) -> (r: Result<(String, String), String>)
    ensures
        match (r, key_value_spec(s@)) {
            (Ok((k, v)), Ok((k2, v2))) => k@ == k2 && v@ == v2,
            (Err(m), Err(m2)) => m@ == m2,
            _ => false,
        },
        r matches Ok((k, v)) ==> k@ + seq!['='] + v@ == s@ && !k@.contains('='),
{
    let cs = chars_of(s);
    let mut i: usize = 0;
    while i < cs.len()
        invariant
            cs@ == s@,
            0 <= i <= cs@.len(),
            forall|j: int| 0 <= j < i ==> cs@[j] != '=',
            first_eq(s@, 0) == first_eq(s@, i as int),
        decreases cs@.len() - i,
    {
        if cs[i] == '=' {
            let k = string_from_range(&cs, 0, i);
            let v = string_from_range(&cs, i + 1, cs.len());
            proof {
                assert(k@ =~= s@.take(i as int));
                assert(v@ =~= s@.skip(i + 1));
                assert(k@ + seq!['='] + v@ =~= s@);
                assert(!k@.contains('=')) by {
                    if k@.contains('=') {
                        let j = choose|j: int| 0 <= j < k@.len() && k@[j] == '=';
                        assert(s@[j] != '=');
                    }
                }
            }
            return Ok((k, v));
        }
        i = i + 1;
    }
    assert(first_eq(s@, i as int) == s@.len());
    let mut msg = concat("invalid KEY=VALUE: no '=' found in '", s);
    append_str(&mut msg, "'");
    Err(msg)
}

/// Splitting at the first `=` and joining again with `=` gives back the text, and the key
/// holds no `=`.
pub proof fn law_key_value_round_trip(s: Seq<char>)
    requires
        key_value_spec(s) is Ok,
    ensures
        ({
            let (k, v) = key_value_spec(s)->Ok_0;
            k + seq!['='] + v == s && !k.contains('=')
        }),
{
    lemma_first_eq(s, 0);
    let (k, v) = key_value_spec(s)->Ok_0;
    assert(k + seq!['='] + v =~= s);
    assert(!k.contains('=')) by {
        if k.contains('=') {
            let j = choose|j: int| 0 <= j < k.len() && k[j] == '=';
            assert(s[j] != '=');
        }
    }
}

} // verus!
