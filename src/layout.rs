//! The compositor: sets a logo block and a block of fact lines side by
//! side, and optionally frames the result.
use vstd::prelude::*;
use vstd::string::*;
use crate::text::{same_text, char_width, visible_width, visible_width_of, lemma_lines_of_push, lines_of, make_spaces, spaces};

verus! {

/// Where the logo stands relative to the fact lines. `Top` and `Bottom`
/// are laid out as `Left`: no vertical stacking exists.
#[derive(Clone, Copy, Debug, PartialEq, Eq, Structural)]
pub enum LogoPosition {
    Left,
    Right,
    Top,
    Bottom,
}

/// The position a name stands for: `left`, `right`, `top` and `bottom`
/// name their position, any other name is `Left`.
pub open spec fn position_named(name: Seq<char>) -> LogoPosition {
    if name == "right"@ {
        LogoPosition::Right
    } else if name == "top"@ {
        LogoPosition::Top
    } else if name == "bottom"@ {
        LogoPosition::Bottom
    } else {
        LogoPosition::Left
    }
}

impl LogoPosition {
    /// `right`, `top` and `bottom` name their position; any other name is
    /// `Left`.
    pub fn from_name(name: &str) -> (r: LogoPosition)
        ensures
            r == position_named(name@),
    {
        if same_text(name, "right") {
            LogoPosition::Right
        } else if same_text(name, "top") {
            LogoPosition::Top
        } else if same_text(name, "bottom") {
            LogoPosition::Bottom
        } else {
            LogoPosition::Left
        }
    }
}

/// How the logo block and the fact block are composed.
#[derive(Clone, Copy, Debug, PartialEq, Eq, Structural)]
pub struct LayoutOptions {
    pub position: LogoPosition,
    pub show_border: bool,
    pub compact: bool,
}

/// Characters of `─` between the corners of a frame line.
pub const FRAME_RULE_WIDTH: usize = 61;

/// The gap between the two blocks: 2 in compact mode, else 4.
pub open spec fn padding(compact: bool) -> nat {
    if compact {
        2
    } else {
        4
    }
}

/// The largest number of characters of any line; 0 for no lines. Logo
/// rows are plain text, so this is also their widest visible width.
pub open spec fn max_width(lines: Seq<Seq<char>>) -> nat
    decreases lines.len(),
{
    if lines.len() == 0 {
        0
    } else {
        let rest = max_width(lines.drop_last());
        if lines.last().len() > rest {
            lines.last().len()
        } else {
            rest
        }
    }
}

/// The largest visible width of any line, colour sequences not counted;
/// 0 for no lines.
pub open spec fn max_visible_width(lines: Seq<Seq<char>>) -> nat
    decreases lines.len(),
{
    if lines.len() == 0 {
        0
    } else {
        let rest = max_visible_width(lines.drop_last());
        if visible_width(lines.last()) > rest {
            visible_width(lines.last())
        } else {
            rest
        }
    }
}

/// Row `i` with the logo on the left: the info column starts at
/// `w + pad` whether or not the logo still has a row there.
pub open spec fn left_row(
    logo: Seq<Seq<char>>,
    info: Seq<Seq<char>>,
    w: nat,
    pad: nat,
    i: int,
) -> Seq<char> {
    if i < logo.len() {
        if i < info.len() {
            logo[i] + spaces((w - logo[i].len() + pad) as nat) + info[i]
        } else {
            logo[i]
        }
    } else {
        spaces(w + pad) + info[i]
    }
}

/// Row `i` with the logo on the right: the fact line, then the gap and the
/// logo row; past the last fact line the logo row stands at `iw + pad`,
/// `iw` being the widest visible width of the fact lines.
pub open spec fn right_row(
    logo: Seq<Seq<char>>,
    info: Seq<Seq<char>>,
    iw: nat,
    pad: nat,
    i: int,
) -> Seq<char> {
    if i < info.len() {
        if i < logo.len() {
            info[i] + spaces(pad) + logo[i]
        } else {
            info[i]
        }
    } else {
        spaces(iw + pad) + logo[i]
    }
}

pub open spec fn row_count(logo: Seq<Seq<char>>, info: Seq<Seq<char>>) -> nat {
    if logo.len() > info.len() {
        logo.len()
    } else {
        info.len()
    }
}

/// The composed rows, without a frame.
pub open spec fn composed_rows(
    logo: Seq<Seq<char>>,
    info: Seq<Seq<char>>,
    position: LogoPosition,
    compact: bool,
) -> Seq<Seq<char>> {
    Seq::new(
        row_count(logo, info),
        |i: int|
            if position == LogoPosition::Right {
                right_row(logo, info, max_visible_width(info), padding(compact), i)
            } else {
                left_row(logo, info, max_width(logo), padding(compact), i)
            },
    )
}

pub open spec fn frame_top() -> Seq<char> {
    seq!['┌'] + Seq::new(FRAME_RULE_WIDTH as nat, |_i: int| '─') + seq!['┐']
}

pub open spec fn frame_bottom() -> Seq<char> {
    seq!['└'] + Seq::new(FRAME_RULE_WIDTH as nat, |_i: int| '─') + seq!['┘']
}

/// `rows` between the two frame lines where `border` holds.
pub open spec fn framed(rows: Seq<Seq<char>>, border: bool) -> Seq<Seq<char>> {
    if border {
        seq![frame_top()] + rows + seq![frame_bottom()]
    } else {
        rows
    }
}

/// The full output of the compositor.
pub open spec fn composed(
    logo: Seq<Seq<char>>,
    info: Seq<Seq<char>>,
    options: LayoutOptions,
) -> Seq<Seq<char>> {
    framed(composed_rows(logo, info, options.position, options.compact), options.show_border)
}

pub proof fn lemma_max_width_bound(lines: Seq<Seq<char>>)
    ensures
        forall|i: int| 0 <= i < lines.len() ==> #[trigger] lines[i].len() <= max_width(lines),
        lines.len() == 0 || exists|i: int|
            0 <= i < lines.len() && #[trigger] lines[i].len() == max_width(lines),
    decreases lines.len(),
{
    if lines.len() > 0 {
        let rest = lines.drop_last();
        lemma_max_width_bound(rest);
        assert forall|i: int| 0 <= i < lines.len() implies #[trigger] lines[i].len() <= max_width(
            lines,
        ) by {
            if i < rest.len() {
                assert(lines[i] == rest[i]);
            }
        }
        if lines.last().len() <= max_width(rest) && rest.len() > 0 {
            let k = choose|k: int| 0 <= k < rest.len() && #[trigger] rest[k].len() == max_width(rest);
            assert(lines[k] == rest[k]);
        } else {
            assert(lines[lines.len() - 1].len() == max_width(lines));
        }
    }
}

/// The number of characters of the widest line.
pub fn widest(lines: &Vec<String>) -> (r: usize)
    ensures
        r == max_width(lines_of(lines@)),
{
    let ghost all = lines_of(lines@);
    let mut m: usize = 0;
    let mut i: usize = 0;
    while i < lines.len()
        invariant
            all == lines_of(lines@),
            i <= lines.len(),
            m == max_width(all.take(i as int)),
        decreases lines.len() - i,
    {
        let w = char_width(lines[i].as_str());
        assert(all.take(i + 1).drop_last() =~= all.take(i as int));
        assert(all.take(i + 1).last() == all[i as int]);
        if w > m {
            m = w;
        }
        i = i + 1;
    }
    assert(all.take(lines.len() as int) =~= all);
    m
}

/// The widest visible width of the lines.
pub fn widest_visible(lines: &Vec<String>) -> (r: usize)
    ensures
        r == max_visible_width(lines_of(lines@)),
{
    let ghost all = lines_of(lines@);
    let mut m: usize = 0;
    let mut i: usize = 0;
    while i < lines.len()
        invariant
            all == lines_of(lines@),
            i <= lines.len(),
            m == max_visible_width(all.take(i as int)),
        decreases lines.len() - i,
    {
        let w = visible_width_of(lines[i].as_str());
        assert(all.take(i + 1).drop_last() =~= all.take(i as int));
        assert(all.take(i + 1).last() == all[i as int]);
        if w > m {
            m = w;
        }
        i = i + 1;
    }
    assert(all.take(lines.len() as int) =~= all);
    m
}

/// One frame line: `left`, the rule, `right`.
fn frame_line(left: &str, right: &str) -> (r: String)
    ensures
        r@ == left@ + Seq::new(FRAME_RULE_WIDTH as nat, |_i: int| '─') + right@,
{
    let mut r = String::new();
    r.append(left);
    let mut i: usize = 0;
    while i < FRAME_RULE_WIDTH
        invariant
            i <= FRAME_RULE_WIDTH,
            r@ == left@ + Seq::new(i as nat, |_i: int| '─'),
        decreases FRAME_RULE_WIDTH - i,
    {
        r.append("─");
        proof {
            reveal_strlit("─");
        }
        assert(r@ =~= left@ + Seq::new((i + 1) as nat, |_i: int| '─'));
        i = i + 1;
    }
    r.append(right);
    r
}

/// The top line of the frame.
pub fn frame_top_line() -> (r: String)
    ensures
        r@ == frame_top(),
{
    proof {
        reveal_strlit("┌");
        reveal_strlit("┐");
    }
    let r = frame_line("┌", "┐");
    assert(r@ =~= frame_top());
    r
}

/// The bottom line of the frame.
pub fn frame_bottom_line() -> (r: String)
    ensures
        r@ == frame_bottom(),
{
    proof {
        reveal_strlit("└");
        reveal_strlit("┘");
    }
    let r = frame_line("└", "┘");
    assert(r@ =~= frame_bottom());
    r
}

/// `a + b` blanks, made without adding the two counts.
fn blank_gap(a: usize, b: usize) -> (r: String)
    ensures
        r@ == spaces((a + b) as nat),
{
    let mut r = make_spaces(a);
    r.append(make_spaces(b).as_str());
    assert(r@ =~= spaces((a + b) as nat));
    r
}

/// `a` followed by `b`.
fn joined(a: &str, b: &str) -> (r: String)
    ensures
        r@ == a@ + b@,
{
    let mut r = String::new();
    r.append(a);
    r.append(b);
    assert(r@ =~= a@ + b@);
    r
}

/// The lines between the frame lines where `border` holds.
pub fn frame_rows(rows: Vec<String>, border: bool) -> (r: Vec<String>)
    ensures
        lines_of(r@) == framed(lines_of(rows@), border),
{
    if !border {
        return rows;
    }
    let mut r: Vec<String> = Vec::new();
    r.push(frame_top_line());
    let mut i: usize = 0;
    while i < rows.len()
        invariant
            i <= rows.len(),
            lines_of(r@) == seq![frame_top()] + lines_of(rows@).take(i as int),
        decreases rows.len() - i,
    {
        let ghost before = r@;
        let row = rows[i].clone();
        r.push(row);
        proof {
            lemma_lines_of_push(before, row);
        }
        assert(lines_of(r@) =~= seq![frame_top()] + lines_of(rows@).take(i + 1));
        i = i + 1;
    }
    let ghost before = r@;
    let last = frame_bottom_line();
    r.push(last);
    proof {
        lemma_lines_of_push(before, last);
    }
    assert(lines_of(rows@).take(rows.len() as int) =~= lines_of(rows@));
    assert(lines_of(r@) =~= framed(lines_of(rows@), border));
    r
}

/// Composes the logo block and the fact lines row by row, as `options`
/// asks, and frames the result where it asks for a border.
pub fn compose(logo: &Vec<String>, info: &Vec<String>, options: LayoutOptions) -> (r: Vec<String>)
    ensures
        lines_of(r@) == composed(lines_of(logo@), lines_of(info@), options),
{
    let ghost lg = lines_of(logo@);
    let ghost inf = lines_of(info@);
    let pad: usize = if options.compact { 2 } else { 4 };
    let right = match options.position {
        LogoPosition::Right => true,
        _ => false,
    };
    let lw = widest(logo);
    let iw = widest_visible(info);
    proof {
        lemma_max_width_bound(lg);
        lemma_max_width_bound(inf);
    }
    let n: usize = if logo.len() > info.len() { logo.len() } else { info.len() };
    let ghost want = composed_rows(lg, inf, options.position, options.compact);
    let mut rows: Vec<String> = Vec::new();
    let mut i: usize = 0;
    while i < n
        invariant
            lg == lines_of(logo@),
            inf == lines_of(info@),
            want == composed_rows(lg, inf, options.position, options.compact),
            n == want.len(),
            pad == padding(options.compact),
            right == (options.position == LogoPosition::Right),
            lw == max_width(lg),
            iw == max_visible_width(inf),
            forall|k: int| 0 <= k < lg.len() ==> #[trigger] lg[k].len() <= lw,
            i <= n,
            lines_of(rows@) == want.take(i as int),
        decreases n - i,
    {
        let row = if right {
            if i < info.len() {
                if i < logo.len() {
                    let mut s = joined(info[i].as_str(), make_spaces(pad).as_str());
                    s.append(logo[i].as_str());
                    s
                } else {
                    info[i].clone()
                }
            } else {
                let mut s = blank_gap(iw, pad);
                s.append(logo[i].as_str());
                s
            }
        } else {
            if i < logo.len() {
                if i < info.len() {
                    let cw = char_width(logo[i].as_str());
                    assert(lg[i as int].len() == cw);
                    let mut s = joined(logo[i].as_str(), blank_gap(lw - cw, pad).as_str());
                    s.append(info[i].as_str());
                    s
                } else {
                    logo[i].clone()
                }
            } else {
                let mut s = blank_gap(lw, pad);
                s.append(info[i].as_str());
                s
            }
        };
        proof {
            if right {
                assert(row@ =~= right_row(lg, inf, iw as nat, pad as nat, i as int));
            } else {
                assert(row@ =~= left_row(lg, inf, lw as nat, pad as nat, i as int));
            }
        }
        let ghost before = rows@;
        rows.push(row);
        proof {
            lemma_lines_of_push(before, row);
        }
        assert(lines_of(rows@) =~= want.take(i + 1));
        i = i + 1;
    }
    assert(lines_of(rows@) =~= want);
    frame_rows(rows, options.show_border)
}

} // verus!
