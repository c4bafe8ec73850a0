//! Plain text helpers shared by the formatter and the compositor.
use vstd::prelude::*;
use vstd::string::*;

verus! {

/// The character of a decimal digit.
pub open spec fn digit_char(d: nat) -> char {
    if d == 0 {
        '0'
    } else if d == 1 {
        '1'
    } else if d == 2 {
        '2'
    } else if d == 3 {
        '3'
    } else if d == 4 {
        '4'
    } else if d == 5 {
        '5'
    } else if d == 6 {
        '6'
    } else if d == 7 {
        '7'
    } else if d == 8 {
        '8'
    } else {
        '9'
    }
}

/// `n` in decimal, without leading zeros.
pub open spec fn decimal(n: nat) -> Seq<char>
    decreases n,
{
    if n < 10 {
        seq![digit_char(n)]
    } else {
        decimal(n / 10).push(digit_char(n % 10))
    }
}

/// `n` blanks.
pub open spec fn spaces(n: nat) -> Seq<char> {
    Seq::new(n, |_i: int| ' ')
}

/// The views of a sequence of owned strings.
pub open spec fn lines_of(v: Seq<String>) -> Seq<Seq<char>> {
    v.map_values(|s: String| s@)
}

pub proof fn lemma_lines_of_push(v: Seq<String>, s: String)
    ensures
        lines_of(v.push(s)) == lines_of(v).push(s@),
{
    assert(lines_of(v.push(s)) =~= lines_of(v).push(s@));
}

/// Splits `s` at every `'\n'`: `k` newlines give `k + 1` segments, and the
/// empty text gives one empty segment.
pub open spec fn split_lines(s: Seq<char>) -> Seq<Seq<char>>
    decreases s.len(),
{
    if s.len() == 0 {
        seq![Seq::<char>::empty()]
    } else {
        let prev = split_lines(s.drop_last());
        if s.last() == '\n' {
            prev.push(Seq::<char>::empty())
        } else {
            prev.update(prev.len() - 1, prev.last().push(s.last()))
        }
    }
}

/// The number of newline characters in `s`.
pub open spec fn newline_count(s: Seq<char>) -> nat
    decreases s.len(),
{
    if s.len() == 0 {
        0
    } else {
        newline_count(s.drop_last()) + if s.last() == '\n' { 1nat } else { 0nat }
    }
}

/// A text has one more segment than it has newlines.
pub proof fn lemma_split_lines_len(s: Seq<char>)
    ensures
        split_lines(s).len() == newline_count(s) + 1,
    decreases s.len(),
{
    if s.len() > 0 {
        lemma_split_lines_len(s.drop_last());
    }
}

/// The number of characters of `s`.
pub fn char_width(s: &str) -> (r: usize)
    ensures
        r == s@.len(),
{
    s.unicode_len()
}

/// A string of `n` blanks.
pub fn make_spaces(n: usize) -> (r: String)
    ensures
        r@ == spaces(n as nat),
{
    let mut r = String::new();
    let mut i: usize = 0;
    while i < n
        invariant
            i <= n,
            r@ == spaces(i as nat),
        decreases n - i,
    {
        r.append(" ");
        proof {
            reveal_strlit(" ");
        }
        assert(r@ =~= spaces((i + 1) as nat));
        i = i + 1;
    }
    r
}

/// Whether two texts hold the same characters.
pub fn same_text(a: &str, b: &str) -> (r: bool)
    ensures
        r == (a@ == b@),
{
    let n = a.unicode_len();
    if n != b.unicode_len() {
        return false;
    }
    let mut i: usize = 0;
    while i < n
        invariant
            n == a@.len(),
            n == b@.len(),
            i <= n,
            forall|j: int| 0 <= j < i ==> a@[j] == b@[j],
        decreases n - i,
    {
        if a.get_char(i) != b.get_char(i) {
            return false;
        }
        i = i + 1;
    }
    assert(a@ =~= b@);
    true
}

/// A line without the carriage return that ends it, if any.
pub open spec fn strip_cr(l: Seq<char>) -> Seq<char> {
    if l.len() > 0 && l.last() == '\r' {
        l.drop_last()
    } else {
        l
    }
}

/// The lines of `s`: its segments between newlines, each without a
/// closing carriage return, so that `\r\n` ends a line as `\n` does.
pub open spec fn segments_of(s: Seq<char>) -> Seq<Seq<char>> {
    split_lines(s).map_values(|l: Seq<char>| strip_cr(l))
}

/// The lines of `s`, in order (see `segments_of`).
pub fn line_segments(s: &str) -> (r: Vec<String>)
    ensures
        lines_of(r@) == segments_of(s@),
{
    let raw = split_segments(s);
    let ghost want = segments_of(s@);
    let mut r: Vec<String> = Vec::new();
    let mut i: usize = 0;
    while i < raw.len()
        invariant
            lines_of(raw@) == split_lines(s@),
            want == segments_of(s@),
            i <= raw@.len(),
            lines_of(r@) == want.take(i as int),
        decreases raw@.len() - i,
    {
        let l = raw[i].as_str();
        let n = l.unicode_len();
        let line = if n > 0 && l.get_char(n - 1) == '\r' {
            String::from_str(l.substring_char(0, n - 1))
        } else {
            String::from_str(l)
        };
        assert(line@ =~= strip_cr(l@));
        let ghost before = r@;
        r.push(line);
        proof {
            lemma_lines_of_push(before, line);
        }
        assert(lines_of(r@) =~= want.take(i + 1));
        i = i + 1;
    }
    assert(want.take(raw@.len() as int) =~= want);
    r
}

/// The segments of `s` between newlines, in order.
pub fn split_segments(s: &str) -> (r: Vec<String>)
    ensures
        lines_of(r@) == split_lines(s@),
{
    let n = s.unicode_len();
    let mut done: Vec<String> = Vec::new();
    let mut cur = String::new();
    let mut i: usize = 0;
    while i < n
        invariant
            n == s@.len(),
            i <= n,
            lines_of(done@).push(cur@) == split_lines(s@.take(i as int)),
        decreases n - i,
    {
        let c = s.get_char(i);
        let ghost pre = s@.take(i as int);
        assert(s@.take(i + 1).drop_last() =~= pre);
        if c == '\n' {
            done.push(cur);
            cur = String::new();
            assert(lines_of(done@).push(cur@) =~= split_lines(s@.take(i + 1)));
        } else {
            let ghost old_cur = cur@;
            let piece = s.substring_char(i, i + 1);
            assert(piece@ =~= seq![c]);
            cur.append(piece);
            assert(cur@ =~= old_cur.push(c));
            assert(s@.take(i + 1).last() == c);
            let ghost prev = split_lines(pre);
            assert(prev.last() == old_cur);
            assert(lines_of(done@).push(cur@) =~= prev.update(prev.len() - 1, old_cur.push(c)));
        }
        i = i + 1;
    }
    assert(s@.take(n as int) =~= s@);
    done.push(cur);
    assert(lines_of(done@) =~= split_lines(s@));
    done
}


/// The lowercase form of a text, as Unicode defines it.
pub uninterp spec fn lowercase_of(s: Seq<char>) -> Seq<char>;

/// Whether a character is alphabetic or numeric, as Unicode defines it.
pub uninterp spec fn alphanumeric(c: char) -> bool;

/// Relies on `str::to_lowercase`: the lowercase mapping of the text, which
/// depends on its characters alone.
#[verifier::external_body]
pub(crate) fn to_lowercase(s: &str) -> (r: String)
    ensures
        r@ == lowercase_of(s@),
{
    s.to_lowercase()
}

/// Relies on `char::is_alphanumeric`: the Unicode `Alphabetic` or
/// `Numeric` property of the character.
#[verifier::external_body]
pub(crate) fn is_alphanumeric(c: char) -> (r: bool)
    ensures
        r == alphanumeric(c),
{
    c.is_alphanumeric()
}

/// A decimal digit as text.
fn digit_text(d: u64) -> (r: &'static str)
    requires
        d < 10,
    ensures
        r@ == seq![digit_char(d as nat)],
{
    proof {
        reveal_strlit("0");
        reveal_strlit("1");
        reveal_strlit("2");
        reveal_strlit("3");
        reveal_strlit("4");
        reveal_strlit("5");
        reveal_strlit("6");
        reveal_strlit("7");
        reveal_strlit("8");
        reveal_strlit("9");
    }
    let r = if d == 0 {
        "0"
    } else if d == 1 {
        "1"
    } else if d == 2 {
        "2"
    } else if d == 3 {
        "3"
    } else if d == 4 {
        "4"
    } else if d == 5 {
        "5"
    } else if d == 6 {
        "6"
    } else if d == 7 {
        "7"
    } else if d == 8 {
        "8"
    } else {
        "9"
    };
    assert(r@ =~= seq![digit_char(d as nat)]);
    r
}

/// `n` in decimal.
pub fn decimal_text(n: u64) -> (r: String)
    ensures
        r@ == decimal(n as nat),
    decreases n,
{
    if n < 10 {
        String::from_str(digit_text(n))
    } else {
        let mut r = decimal_text(n / 10);
        r.append(digit_text(n % 10));
        r
    }
}

/// Whether `s` begins with `p`.
pub open spec fn starts_with(s: Seq<char>, p: Seq<char>) -> bool {
    p.len() <= s.len() && s.take(p.len() as int) == p
}

/// Whether `p` occurs in `s` at position `i`.
pub open spec fn occurs_at(s: Seq<char>, p: Seq<char>, i: int) -> bool {
    0 <= i && i + p.len() <= s.len() && s.subrange(i, i + p.len()) == p
}

/// The first position from `i` on at which `p` occurs in `s`, if any.
pub open spec fn occurrence_from(s: Seq<char>, p: Seq<char>, i: int) -> Option<int>
    decreases s.len() + 1 - i,
{
    if i < 0 || i > s.len() {
        None
    } else if occurs_at(s, p, i) {
        Some(i)
    } else {
        occurrence_from(s, p, i + 1)
    }
}

/// The first position at which `p` occurs in `s`, if any.
pub open spec fn first_occurrence(s: Seq<char>, p: Seq<char>) -> Option<int> {
    occurrence_from(s, p, 0)
}

/// Whether `s` begins with `p`.
pub fn text_starts_with(s: &str, p: &str) -> (r: bool)
    ensures
        r == starts_with(s@, p@),
{
    let n = s.unicode_len();
    let m = p.unicode_len();
    if m > n {
        return false;
    }
    let mut i: usize = 0;
    while i < m
        invariant
            n == s@.len(),
            m == p@.len(),
            m <= n,
            i <= m,
            forall|j: int| 0 <= j < i ==> s@[j] == p@[j],
        decreases m - i,
    {
        if s.get_char(i) != p.get_char(i) {
            assert(s@.take(m as int)[i as int] != p@[i as int]);
            return false;
        }
        i = i + 1;
    }
    assert(s@.take(m as int) =~= p@);
    true
}

/// Whether `p` occurs in `s` at position `i`.
fn text_occurs_at(s: &str, p: &str, i: usize) -> (r: bool)
    requires
        i <= s@.len(),
        s@.len() <= usize::MAX,
    ensures
        r == occurs_at(s@, p@, i as int),
{
    let n = s.unicode_len();
    let m = p.unicode_len();
    if m > n - i {
        return false;
    }
    let mut j: usize = 0;
    while j < m
        invariant
            n == s@.len(),
            m == p@.len(),
            i + m <= n,
            j <= m,
            forall|k: int| 0 <= k < j ==> s@[i + k] == p@[k],
        decreases m - j,
    {
        if s.get_char(i + j) != p.get_char(j) {
            assert(s@.subrange(i as int, i + m)[j as int] != p@[j as int]);
            return false;
        }
        j = j + 1;
    }
    assert(s@.subrange(i as int, i + m) =~= p@);
    true
}

/// The first position at which `p` occurs in `s`, if any.
pub fn find_text(s: &str, p: &str) -> (r: Option<usize>)
    ensures
        match r {
            Some(i) => first_occurrence(s@, p@) == Some(i as int) && occurs_at(s@, p@, i as int),
            None => first_occurrence(s@, p@) == None::<int>,
        },
{
    let n = s.unicode_len();
    let mut i: usize = 0;
    while i <= n
        invariant
            n == s@.len(),
            i <= n + 1,
            first_occurrence(s@, p@) == occurrence_from(s@, p@, i as int),
        decreases n + 1 - i,
    {
        if text_occurs_at(s, p, i) {
            return Some(i);
        }
        if i == n {
            assert(occurrence_from(s@, p@, n + 1) == None::<int>);
            return None;
        }
        i = i + 1;
    }
    None
}

/// The text with leading and trailing white space removed, as Unicode
/// defines white space.
pub uninterp spec fn trimmed(s: Seq<char>) -> Seq<char>;

/// Relies on `str::trim`: the text without its leading and trailing
/// Unicode white space, which depends on its characters alone.
#[verifier::external_body]
pub(crate) fn trim_text(s: &str) -> (r: String)
    ensures
        r@ == trimmed(s@),
{
    s.trim().to_string()
}

/// The first of `lines` that begins with `p`.
pub open spec fn first_line_starting(lines: Seq<Seq<char>>, p: Seq<char>) -> Option<Seq<char>>
    decreases lines.len(),
{
    if lines.len() == 0 {
        None
    } else if starts_with(lines[0], p) {
        Some(lines[0])
    } else {
        first_line_starting(lines.drop_first(), p)
    }
}

/// The first of `lines` in which `p` occurs.
pub open spec fn first_line_holding(lines: Seq<Seq<char>>, p: Seq<char>) -> Option<Seq<char>>
    decreases lines.len(),
{
    if lines.len() == 0 {
        None
    } else if first_occurrence(lines[0], p).is_some() {
        Some(lines[0])
    } else {
        first_line_holding(lines.drop_first(), p)
    }
}

/// The first line of `text` (see `segments_of`) that begins with `p` (`starts`) or holds `p`
/// (otherwise).
pub fn find_line(text: &str, p: &str, starts: bool) -> (r: Option<String>)
    ensures
        match r {
            Some(l) => Some(l@),
            None => None::<Seq<char>>,
        } == if starts {
            first_line_starting(segments_of(text@), p@)
        } else {
            first_line_holding(segments_of(text@), p@)
        },
        starts && r.is_some() ==> starts_with(r.unwrap()@, p@),
{
    let lines = line_segments(text);
    let ghost all = segments_of(text@);
    assert(all.skip(0) =~= all);
    let mut i: usize = 0;
    while i < lines.len()
        invariant
            lines_of(lines@) == all,
            all == segments_of(text@),
            i <= lines@.len(),
            starts ==> first_line_starting(all, p@) == first_line_starting(all.skip(i as int), p@),
            !starts ==> first_line_holding(all, p@) == first_line_holding(all.skip(i as int), p@),
        decreases lines@.len() - i,
    {
        assert(all.skip(i as int).drop_first() =~= all.skip(i + 1));
        assert(all.skip(i as int)[0] == lines@[i as int]@);
        let hit = if starts {
            text_starts_with(lines[i].as_str(), p)
        } else {
            let found = find_text(lines[i].as_str(), p);
            assert(found.is_some() == first_occurrence(lines@[i as int]@, p@).is_some());
            found.is_some()
        };
        if hit {
            let l = lines[i].clone();
            assert(l@ == all.skip(i as int)[0]);
            assert(starts ==> first_line_starting(all.skip(i as int), p@) == Some(l@));
            assert(!starts ==> first_line_holding(all.skip(i as int), p@) == Some(l@));
            return Some(l);
        }
        i = i + 1;
    }
    assert(all.skip(lines@.len() as int).len() == 0);
    assert(first_line_starting(all.skip(lines@.len() as int), p@) == None::<Seq<char>>);
    assert(first_line_holding(all.skip(lines@.len() as int), p@) == None::<Seq<char>>);
    None
}

/// The escape character that opens a terminal control sequence.
pub open spec fn esc() -> char {
    '\u{1b}'
}

/// The width and the scanner state after `s`. The state is 0 in plain
/// text, 1 right after an escape character, and 2 inside an SGR sequence
/// (`ESC [` up to its closing `m`). Characters of such sequences take no
/// column; every other character takes one.
pub open spec fn width_scan(s: Seq<char>) -> (nat, nat)
    decreases s.len(),
{
    if s.len() == 0 {
        (0, 0)
    } else {
        let (w, st) = width_scan(s.drop_last());
        let c = s.last();
        if st == 2 {
            if c == 'm' {
                (w, 0)
            } else {
                (w, 2)
            }
        } else if st == 1 && c == '[' {
            (w, 2)
        } else if c == esc() {
            (w, 1)
        } else {
            (w + 1, 0)
        }
    }
}

/// The number of columns `s` takes on a terminal: its characters, less
/// those of its colour sequences.
pub open spec fn visible_width(s: Seq<char>) -> nat {
    width_scan(s).0
}

/// The number of columns `s` takes on a terminal.
pub fn visible_width_of(s: &str) -> (r: usize)
    ensures
        r == visible_width(s@),
{
    let n = s.unicode_len();
    let mut w: usize = 0;
    let mut st: usize = 0;
    let mut i: usize = 0;
    while i < n
        invariant
            n == s@.len(),
            i <= n,
            w <= i,
            (w as nat, st as nat) == width_scan(s@.take(i as int)),
        decreases n - i,
    {
        let c = s.get_char(i);
        assert(s@.take(i + 1).drop_last() =~= s@.take(i as int));
        assert(s@.take(i + 1).last() == c);
        if st == 2 {
            if c == 'm' {
                st = 0;
            }
        } else if st == 1 && c == '[' {
            st = 2;
        } else if c == '\u{1b}' {
            st = 1;
        } else {
            w = w + 1;
            st = 0;
        }
        i = i + 1;
    }
    assert(s@.take(n as int) =~= s@);
    w
}

} // verus!
