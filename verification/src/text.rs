//! Character-level text helpers shared by the parsers of this crate.
use vstd::prelude::*;

verus! {

broadcast use vstd::string::group_string_axioms;

/// Collects the characters of `s` into a vector.
pub fn chars_of(s: &str) -> (r: Vec<char>)
    ensures
        r@ == s@,
{
    let mut out: Vec<char> = Vec::new();
    for c in it: s.chars()
        invariant
            out@ == it.seq().take(it.index() as int),
            it.seq() == s@,
    {
        out.push(c);
    }
    out
}

} // verus!

verus! {

/// Appends one character to a string (`String::push`).
#[verifier::external_body]
pub(crate) fn push_char(s: &mut String, c: char)
    ensures
        final(s)@ == old(s)@.push(c),
{
    s.push(c);
}

/// Builds a string from the characters `cs[from..to]`.
pub fn string_from_range(cs: &Vec<char>, from: usize, to: usize) -> (r: String)
    requires
        from <= to <= cs@.len(),
    ensures
        r@ == cs@.subrange(from as int, to as int),
{
    let mut out = String::new();
    let mut i = from;
    while i < to
        invariant
            from <= i <= to <= cs@.len(),
            out@ == cs@.subrange(from as int, i as int),
        decreases to - i,
    {
        push_char(&mut out, cs[i]);
        i = i + 1;
    }
    out
}

/// Concatenation of two strings into a fresh string.
pub fn concat(a: &str, b: &str) -> (r: String)
    ensures
        r@ == a@ + b@,
{
    let mut out = a.to_owned();
    out.append(b);
    out
}

/// Number of bytes of the UTF-8 encoding of `c` (as documented for `char::len_utf8`).
pub open spec fn utf8_width(c: char) -> int {
    if (c as u32) < 0x80 {
        1
    } else if (c as u32) < 0x800 {
        2
    } else if (c as u32) < 0x10000 {
        3
    } else {
        4
    }
}

/// Number of bytes of the UTF-8 encoding of a character sequence (`str::len`).
pub open spec fn utf8_len(s: Seq<char>) -> int
    decreases s.len(),
{
    if s.len() == 0 {
        0
    } else {
        utf8_len(s.drop_last()) + utf8_width(s.last())
    }
}

/// `utf8_len` agrees with the length of vstd's UTF-8 encoding.
pub proof fn lemma_utf8_len_is_encoding_len(s: Seq<char>)
    ensures
        utf8_len(s) == vstd::utf8::encode_utf8(s).len(),
    decreases s.len(),
{
    if s.len() > 0 {
        lemma_utf8_len_first(s);
        lemma_utf8_len_is_encoding_len(s.drop_first());
        let c = s[0];
        vstd::utf8::char_is_scalar(c);
    }
}

/// Splitting off the first character.
pub proof fn lemma_utf8_len_first(s: Seq<char>)
    requires
        s.len() > 0,
    ensures
        utf8_len(s) == utf8_width(s[0]) + utf8_len(s.drop_first()),
    decreases s.len(),
{
    if s.len() > 1 {
        lemma_utf8_len_first(s.drop_last());
        assert(s.drop_last().drop_first() =~= s.drop_first().drop_last());
    } else {
        assert(s.drop_last() =~= Seq::<char>::empty());
        assert(s.drop_first() =~= Seq::<char>::empty());
    }
}

/// The Unicode `White_Space` property, which `char::is_whitespace` and `str::trim` use.
pub open spec fn is_ws(c: char) -> bool {
    let v = c as u32;
    ||| 0x9 <= v <= 0xD
    ||| v == 0x20
    ||| v == 0x85
    ||| v == 0xA0
    ||| v == 0x1680
    ||| 0x2000 <= v <= 0x200A
    ||| v == 0x2028
    ||| v == 0x2029
    ||| v == 0x202F
    ||| v == 0x205F
    ||| v == 0x3000
}

/// Exec counterpart of `is_ws`.
pub fn is_whitespace(c: char) -> (r: bool)
    ensures
        r == is_ws(c),
{
    let v = c as u32;
    (0x9 <= v && v <= 0xD) || v == 0x20 || v == 0x85 || v == 0xA0 || v == 0x1680 || (0x2000 <= v
        && v <= 0x200A) || v == 0x2028 || v == 0x2029 || v == 0x202F || v == 0x205F || v == 0x3000
}

/// `str::trim_start`: drops the leading whitespace.
pub open spec fn trim_start(s: Seq<char>) -> Seq<char>
    decreases s.len(),
{
    if s.len() > 0 && is_ws(s[0]) {
        trim_start(s.drop_first())
    } else {
        s
    }
}

/// `str::trim_end`: drops the trailing whitespace.
pub open spec fn trim_end(s: Seq<char>) -> Seq<char>
    decreases s.len(),
{
    if s.len() > 0 && is_ws(s.last()) {
        trim_end(s.drop_last())
    } else {
        s
    }
}

/// `str::trim`.
pub open spec fn trim(s: Seq<char>) -> Seq<char> {
    trim_end(trim_start(s))
}

/// `str::trim_start_matches('\n')`.
pub open spec fn trim_start_newlines(s: Seq<char>) -> Seq<char>
    decreases s.len(),
{
    if s.len() > 0 && s[0] == '\n' {
        trim_start_newlines(s.drop_first())
    } else {
        s
    }
}

/// The three-dash frontmatter delimiter.
pub open spec fn dashes() -> Seq<char> {
    seq!['-', '-', '-']
}

/// Bounds of `trim(cs[from..to])` within `cs`.
pub fn trim_bounds(cs: &Vec<char>, from: usize, to: usize) -> (r: (usize, usize))
    requires
        from <= to <= cs@.len(),
    ensures
        from <= r.0 <= r.1 <= to,
        trim(cs@.subrange(from as int, to as int)) == cs@.subrange(r.0 as int, r.1 as int),
{
    let mut i = from;
    while i < to && is_whitespace(cs[i])
        invariant
            from <= i <= to <= cs@.len(),
            trim_start(cs@.subrange(from as int, to as int)) == trim_start(
                cs@.subrange(i as int, to as int),
            ),
        decreases to - i,
    {
        assert(cs@.subrange(i as int, to as int).drop_first() =~= cs@.subrange(
            i + 1,
            to as int,
        ));
        i = i + 1;
    }
    let ghost t = cs@.subrange(i as int, to as int);
    assert(trim_start(t) == t);
    let mut j = to;
    while j > i && is_whitespace(cs[j - 1])
        invariant
            i <= j <= to <= cs@.len(),
            trim_end(t) == trim_end(cs@.subrange(i as int, j as int)),
        decreases j - i,
    {
        assert(cs@.subrange(i as int, j as int).drop_last() =~= cs@.subrange(
            i as int,
            j - 1,
        ));
        j = j - 1;
    }
    let ghost u = cs@.subrange(i as int, j as int);
    assert(trim_end(u) == u);
    (i, j)
}

/// `str::trim`, into a new string.
pub fn trim_str(s: &str) -> (r: String)
    ensures
        r@ == trim(s@),
{
    let cs = chars_of(s);
    let (i, j) = trim_bounds(&cs, 0, cs.len());
    assert(cs@.subrange(0, cs@.len() as int) =~= s@);
    string_from_range(&cs, i, j)
}

/// Whether `trim(cs[from..to])` is the frontmatter delimiter `---`.
pub fn trims_to_dashes(cs: &Vec<char>, from: usize, to: usize) -> (r: bool)
    requires
        from <= to <= cs@.len(),
    ensures
        r == (trim(cs@.subrange(from as int, to as int)) == dashes()),
{
    let (i, j) = trim_bounds(cs, from, to);
    let ghost u = cs@.subrange(i as int, j as int);
    if j - i == 3 && cs[i] == '-' && cs[i + 1] == '-' && cs[i + 2] == '-' {
        assert(u =~= dashes());
        true
    } else {
        assert(u.len() != 3 ==> u != dashes());
        false
    }
}

/// Index of the first `'\n'` at or after `i`, or `s.len()` when there is none.
pub open spec fn line_end(s: Seq<char>, i: int) -> int
    decreases s.len() - i,
{
    if i < 0 || i >= s.len() || s[i] == '\n' {
        i
    } else {
        line_end(s, i + 1)
    }
}

/// Drops one trailing `'\r'`.
pub open spec fn strip_cr(l: Seq<char>) -> Seq<char> {
    if l.len() > 0 && l.last() == '\r' {
        l.drop_last()
    } else {
        l
    }
}

/// `str::lines` of `s[i..]`: split at `'\n'`, a `'\r'` right before a `'\n'` belongs to the
/// line ending, and a final line ending is optional.
pub open spec fn lines_from(s: Seq<char>, i: int) -> Seq<Seq<char>>
    decreases s.len() - i,
{
    if i < 0 || i >= s.len() {
        seq![]
    } else {
        let e = line_end(s, i);
        if e < s.len() {
            proof {
                lemma_line_end(s, i);
            }
            seq![strip_cr(s.subrange(i, e))] + lines_from(s, e + 1)
        } else {
            seq![s.subrange(i, e)]
        }
    }
}

/// `str::lines`.
pub open spec fn lines(s: Seq<char>) -> Seq<Seq<char>> {
    lines_from(s, 0)
}

/// Facts about `line_end`.
pub proof fn lemma_line_end(s: Seq<char>, i: int)
    requires
        0 <= i <= s.len(),
    ensures
        i <= line_end(s, i) <= s.len(),
        line_end(s, i) < s.len() ==> s[line_end(s, i)] == '\n',
        forall|j: int| i <= j < line_end(s, i) ==> s[j] != '\n',
    decreases s.len() - i,
{
    if i < s.len() && s[i] != '\n' {
        lemma_line_end(s, i + 1);
    }
}

/// `line_end` in `x + y` past `x` is `line_end` in `y`, shifted.
pub proof fn lemma_line_end_shift(x: Seq<char>, y: Seq<char>, j: int)
    requires
        0 <= j <= y.len(),
    ensures
        line_end(x + y, x.len() + j) == x.len() + line_end(y, j),
    decreases y.len() - j,
{
    if j < y.len() {
        assert((x + y)[x.len() + j] == y[j]);
        if y[j] != '\n' {
            lemma_line_end_shift(x, y, j + 1);
        }
    }
}

/// The lines of `x + y` that start past `x` are the lines of `y`.
pub proof fn lemma_lines_from_shift(x: Seq<char>, y: Seq<char>, j: int)
    requires
        0 <= j <= y.len(),
    ensures
        lines_from(x + y, x.len() + j) == lines_from(y, j),
    decreases y.len() - j,
{
    if j < y.len() {
        let s = x + y;
        let k = x.len() + j;
        lemma_line_end_shift(x, y, j);
        lemma_line_end(y, j);
        let e2 = line_end(y, j);
        let e = line_end(s, k);
        assert(e == x.len() + e2);
        assert(s.subrange(k, e) =~= y.subrange(j, e2));
        if e2 < y.len() {
            lemma_lines_from_shift(x, y, e2 + 1);
            assert(x.len() + (e2 + 1) == e + 1);
        }
    }
}

/// Within `x` that ends in a newline, `line_end` does not look past `x`.
pub proof fn lemma_line_end_within(x: Seq<char>, y: Seq<char>, i: int)
    requires
        x.len() > 0,
        x.last() == '\n',
        0 <= i < x.len(),
    ensures
        line_end(x + y, i) == line_end(x, i),
        line_end(x, i) < x.len(),
    decreases x.len() - i,
{
    assert((x + y)[i] == x[i]);
    if x[i] != '\n' {
        lemma_line_end_within(x, y, i + 1);
    }
}

/// The lines of `x + y`, when `x` is empty or ends in a newline, are those of `x` followed
/// by those of `y`.
pub proof fn lemma_lines_concat(x: Seq<char>, y: Seq<char>, i: int)
    requires
        x.len() == 0 || x.last() == '\n',
        0 <= i <= x.len(),
    ensures
        lines_from(x + y, i) == lines_from(x, i) + lines_from(y, 0),
    decreases x.len() - i,
{
    if i == x.len() {
        lemma_lines_from_shift(x, y, 0);
        assert(lines_from(x, i) =~= Seq::<Seq<char>>::empty());
        assert(lines_from(x, i) + lines_from(y, 0) =~= lines_from(y, 0));
    } else {
        let s = x + y;
        lemma_line_end_within(x, y, i);
        lemma_line_end(x, i);
        let e = line_end(x, i);
        assert(s.subrange(i, e) =~= x.subrange(i, e));
        lemma_lines_concat(x, y, e + 1);
        let head = seq![strip_cr(x.subrange(i, e))];
        assert(lines_from(s, i) == head + lines_from(s, e + 1));
        assert(lines_from(x, i) == head + lines_from(x, e + 1));
        assert(head + (lines_from(x, e + 1) + lines_from(y, 0)) =~= (head + lines_from(x, e + 1))
            + lines_from(y, 0));
    }
}

/// No line of `s[i..]` holds a newline.
pub proof fn lemma_lines_have_no_newline(s: Seq<char>, i: int)
    requires
        0 <= i <= s.len(),
    ensures
        forall|k: int|
            0 <= k < lines_from(s, i).len() ==> !(#[trigger] lines_from(s, i)[k]).contains('\n'),
    decreases s.len() - i,
{
    if i < s.len() {
        lemma_line_end(s, i);
        let e = line_end(s, i);
        let l = s.subrange(i, e);
        assert(!l.contains('\n')) by {
            if l.contains('\n') {
                let j = choose|j: int| 0 <= j < l.len() && l[j] == '\n';
                assert(s[i + j] == '\n');
            }
        }
        if e < s.len() {
            lemma_lines_have_no_newline(s, e + 1);
            assert(!strip_cr(l).contains('\n')) by {
                if strip_cr(l).contains('\n') {
                    let j = choose|j: int| 0 <= j < strip_cr(l).len() && strip_cr(l)[j] == '\n';
                    assert(l[j] == '\n');
                }
            }
            let rest = lines_from(s, e + 1);
            assert forall|k: int| 0 <= k < lines_from(s, i).len() implies !(
            #[trigger] lines_from(s, i)[k]).contains('\n') by {
                if k > 0 {
                    assert(lines_from(s, i)[k] == rest[k - 1]);
                }
            }
        }
    }
}

/// A line without a newline and without a final carriage return, followed by a newline, reads
/// back as that one line.
pub proof fn lemma_lines_of_one_line(l: Seq<char>)
    requires
        !l.contains('\n'),
        !(l.len() > 0 && l.last() == '\r'),
    ensures
        lines(l + seq!['\n']) == seq![l],
{
    let s = l + seq!['\n'];
    lemma_line_end(s, 0);
    let e = line_end(s, 0);
    assert(s[l.len() as int] == '\n');
    if e < l.len() {
        assert(s[e] == l[e]);
    }
    assert(e == l.len());
    assert(s.subrange(0, e) =~= l);
    assert(lines_from(s, e + 1) =~= Seq::<Seq<char>>::empty());
}

/// Finds `line_end(cs, i)`.
pub fn find_line_end(cs: &Vec<char>, i: usize) -> (r: usize)
    requires
        i <= cs@.len(),
    ensures
        r == line_end(cs@, i as int),
        i <= r <= cs@.len(),
{
    proof {
        lemma_line_end(cs@, i as int);
    }
    let mut j = i;
    while j < cs.len() && cs[j] != '\n'
        invariant
            i <= j <= cs@.len(),
            line_end(cs@, i as int) == line_end(cs@, j as int),
        decreases cs@.len() - j,
    {
        j = j + 1;
    }
    j
}

/// The line starting at `i` (`i < cs.len()`): its content end (line ending excluded) and the
/// start of the next line.
pub fn line_bounds(cs: &Vec<char>, i: usize) -> (r: (usize, usize))
    requires
        i < cs@.len(),
    ensures
        i <= r.0 <= cs@.len(),
        r.1 <= cs@.len(),
        i < r.1,
        lines_from(cs@, i as int) == seq![cs@.subrange(i as int, r.0 as int)] + lines_from(
            cs@,
            r.1 as int,
        ),
        r.1 == cs@.len() || r.1 == line_end(cs@, i as int) + 1,
        r.1 < cs@.len() ==> cs@[r.1 - 1] == '\n',
        r.1 == line_end(cs@, i as int) + 1 || line_end(cs@, i as int) == cs@.len(),
        r.0 == line_end(cs@, i as int) || (r.0 + 1 == line_end(cs@, i as int) && cs@[r.0 as int]
            == '\r' && line_end(cs@, i as int) < cs@.len()),
{
    let e = find_line_end(cs, i);
    proof {
        lemma_line_end(cs@, i as int);
    }
    if e < cs.len() {
        let content_end = if e > i && cs[e - 1] == '\r' {
            e - 1
        } else {
            e
        };
        proof {
            let l = cs@.subrange(i as int, e as int);
            if e > i && cs@[e - 1] == '\r' {
                assert(l.drop_last() =~= cs@.subrange(i as int, content_end as int));
            }
            assert(strip_cr(l) =~= cs@.subrange(i as int, content_end as int));
        }
        (content_end, e + 1)
    } else {
        assert(lines_from(cs@, e as int) == Seq::<Seq<char>>::empty());
        (e, e)
    }
}

} // verus!

verus! {

/// What `format!("{:?}", s)` prints for a string slice: the text in double quotes with
/// Rust's debug escapes.
pub uninterp spec fn debug_str(s: Seq<char>) -> Seq<char>;

/// `<str as Debug>::fmt`, as `format!("{:?}", s)`.
#[verifier::external_body]
pub(crate) fn debug_quote(s: &str) -> (r: String)
    ensures
        r@ == debug_str(s@),
{
    format!("{:?}", s)
}

/// Appends `b` to `a`.
pub fn append_str(a: &mut String, b: &str)
    ensures
        final(a)@ == old(a)@ + b@,
{
    a.append(b);
}

/// Whether `s` starts with `c`.
pub fn starts_with_char(s: &str, c: char) -> (r: bool)
    ensures
        r == (s@.len() > 0 && s@[0] == c),
{
    let n = s.unicode_len();
    if n == 0 {
        false
    } else {
        s.get_char(0) == c
    }
}

/// `str::strip_prefix(c).unwrap_or(s)`: drops one leading `c`.
pub open spec fn strip_char(s: Seq<char>, c: char) -> Seq<char> {
    if s.len() > 0 && s[0] == c {
        s.drop_first()
    } else {
        s
    }
}

/// Exec counterpart of `strip_char`.
pub fn strip_leading_char(s: &str, c: char) -> (r: String)
    ensures
        r@ == strip_char(s@, c),
{
    let n = s.unicode_len();
    if n > 0 && s.get_char(0) == c {
        s.substring_char(1, n).to_owned()
    } else {
        s.to_owned()
    }
}

/// String equality on views.
pub fn str_eq(a: &str, b: &str) -> (r: bool)
    ensures
        r == (a@ == b@),
{
    let n = a.unicode_len();
    if n != b.unicode_len() {
        return false;
    }
    let mut i: usize = 0;
    while i < n
        invariant
            n == a@.len(),
            n == b@.len(),
            0 <= i <= n,
            forall|j: int| 0 <= j < i ==> a@[j] == b@[j],
        decreases n - i,
    {
        if a.get_char(i) != b.get_char(i) {
            return false;
        }
        i = i + 1;
    }
    assert(a@ =~= b@);
    true
}

} // verus!

verus! {

/// `str::starts_with` for a string prefix.
pub fn has_prefix(s: &str, p: &str) -> (r: bool)
    ensures
        r == p@.is_prefix_of(s@),
{
    let n = p.unicode_len();
    if n > s.unicode_len() {
        return false;
    }
    let mut i: usize = 0;
    while i < n
        invariant
            n == p@.len(),
            n <= s@.len(),
            0 <= i <= n,
            forall|j: int| 0 <= j < i ==> s@[j] == p@[j],
        decreases n - i,
    {
        if s.get_char(i) != p.get_char(i) {
            return false;
        }
        i = i + 1;
    }
    assert(s@.subrange(0, n as int) =~= p@);
    true
}

} // verus!
