//! Laws of the rendering core, stated over the spec functions that the
//! executable functions' contracts use.
use vstd::prelude::*;
use crate::layout::{
    composed, composed_rows, lemma_max_width_bound, max_width, padding,
    LayoutOptions, LogoPosition,
};
use crate::logo_art::{sized, transformed, LogoSize, LogoStyle, MINIMAL_ROWS};
use crate::format::{renders_fact, FactView};
use crate::output::is_info_block;
use crate::text::{newline_count, segments_of, spaces, split_lines, strip_cr};

verus! {

/// Segments joined back together with a newline between each two.
pub open spec fn joined_lines(segments: Seq<Seq<char>>) -> Seq<char>
    decreases segments.len(),
{
    if segments.len() <= 1 {
        if segments.len() == 0 {
            Seq::empty()
        } else {
            segments[0]
        }
    } else {
        joined_lines(segments.drop_last()) + seq!['\n'] + segments.last()
    }
}

/// The composed output has one row per row of the taller block, plus the
/// two frame lines where a border is asked for.
pub proof fn lemma_row_count(logo: Seq<Seq<char>>, info: Seq<Seq<char>>, options: LayoutOptions)
    ensures
        composed(logo, info, options).len() == (if logo.len() > info.len() {
            logo.len()
        } else {
            info.len()
        }) + (if options.show_border {
            2nat
        } else {
            0nat
        }),
{
}

/// A value with `k` newlines splits into exactly `k + 1` segments, and
/// joining the segments with newlines gives the value back: no segment is
/// dropped or merged. The displayed lines are those segments, each without
/// a closing carriage return.
pub proof fn lemma_segments_preserved(s: Seq<char>)
    ensures
        split_lines(s).len() == newline_count(s) + 1,
        joined_lines(split_lines(s)) == s,
        segments_of(s).len() == newline_count(s) + 1,
        forall|i: int|
            0 <= i < segments_of(s).len() ==> #[trigger] segments_of(s)[i] == strip_cr(
                split_lines(s)[i],
            ),
    decreases s.len(),
{
    crate::text::lemma_split_lines_len(s);
    if s.len() > 0 {
        let prev = split_lines(s.drop_last());
        lemma_segments_preserved(s.drop_last());
        let cur = split_lines(s);
        if s.last() == '\n' {
            assert(cur.drop_last() =~= prev);
            assert(joined_lines(cur) =~= s);
        } else {
            let n = prev.len();
            if n == 1 {
                assert(cur =~= seq![prev[0].push(s.last())]);
                assert(joined_lines(prev) == prev[0]);
                assert(s.drop_last().push(s.last()) =~= s);
                assert(joined_lines(cur) == cur[0]);
                assert(cur[0] == prev[0].push(s.last()));
                assert(prev[0] == s.drop_last());
                assert(joined_lines(cur) == s);
            } else {
                assert(cur.drop_last() =~= prev.drop_last());
                assert(joined_lines(cur) =~= joined_lines(prev.drop_last()) + seq!['\n']
                    + prev.last().push(s.last()));
                let head = joined_lines(prev.drop_last()) + seq!['\n'];
                assert(joined_lines(prev) == head + prev.last());
                assert(head + prev.last().push(s.last()) =~= (head + prev.last()).push(s.last()));
                assert(s.drop_last().push(s.last()) =~= s);
                assert(joined_lines(cur) == s);
            }
        }
    }
}

/// `Small` keeps rows 0, 2, 4, ... of the art; `Medium` and `Large` keep
/// the art unchanged. Styles other than `Minimal` change nothing.
pub proof fn lemma_size_transform<A>(art: Seq<A>, style: LogoStyle)
    requires
        style != LogoStyle::Minimal,
    ensures
        transformed(art, LogoSize::Small, style).len() == (art.len() + 1) / 2,
        forall|i: int|
            0 <= i < (art.len() + 1) / 2 ==> #[trigger] transformed(art, LogoSize::Small, style)[i]
                == art[2 * i],
        transformed(art, LogoSize::Medium, style) == art,
        transformed(art, LogoSize::Large, style) == art,
{
}

/// `Minimal` keeps the first three rows of art that is longer (after the
/// size class has been applied), and leaves shorter art unchanged.
pub proof fn lemma_minimal_style<A>(art: Seq<A>, size: LogoSize)
    ensures
        ({
            let s = sized(art, size);
            let out = transformed(art, size, LogoStyle::Minimal);
            &&& s.len() > MINIMAL_ROWS ==> out == s.take(MINIMAL_ROWS as int) && out.len()
                == MINIMAL_ROWS
            &&& s.len() <= MINIMAL_ROWS ==> out == s
        }),
{
}

/// Outside `Right` mode, every fact line starts at column
/// `max_width(logo) + padding`: a row with a logo row `l` holds `l`, then
/// `max_width(logo) - |l| + padding` blanks, then the fact line; a row
/// past the logo holds `max_width(logo) + padding` blanks, then the fact line.
pub proof fn lemma_left_alignment(
    logo: Seq<Seq<char>>,
    info: Seq<Seq<char>>,
    position: LogoPosition,
    compact: bool,
    i: int,
)
    requires
        position != LogoPosition::Right,
        0 <= i < info.len(),
    ensures
        ({
            let row = composed_rows(logo, info, position, compact)[i];
            let col = max_width(logo) + padding(compact);
            &&& row.len() == col + info[i].len()
            &&& row.subrange(col as int, row.len() as int) == info[i]
            &&& i < logo.len() ==> row == logo[i] + spaces(
                (max_width(logo) - logo[i].len() + padding(compact)) as nat,
            ) + info[i]
            &&& i >= logo.len() ==> row == spaces(col) + info[i]
        }),
{
    lemma_max_width_bound(logo);
    let row = composed_rows(logo, info, position, compact)[i];
    let col = max_width(logo) + padding(compact);
    assert(row.subrange(col as int, row.len() as int) =~= info[i]);
}

/// Composition is a function of its arguments: two outputs for the same
/// logo, fact lines and options are the same, row for row.
pub proof fn lemma_compose_deterministic(
    logo: Seq<Seq<char>>,
    info: Seq<Seq<char>>,
    options: LayoutOptions,
    first: Seq<Seq<char>>,
    second: Seq<Seq<char>>,
)
    requires
        first == composed(logo, info, options),
        second == composed(logo, info, options),
    ensures
        first == second,
{
}

/// The number of lines the values of `facts` split into, all together.
pub open spec fn segment_total(facts: Seq<FactView>) -> nat
    decreases facts.len(),
{
    if facts.len() == 0 {
        0
    } else {
        segments_of(facts[0].1).len() + segment_total(facts.drop_first())
    }
}

proof fn lemma_blocks_len(facts: Seq<FactView>, blocks: Seq<Seq<Seq<char>>>)
    requires
        blocks.len() == facts.len(),
        forall|j: int| 0 <= j < blocks.len() ==> renders_fact(facts[j], #[trigger] blocks[j]),
    ensures
        blocks.flatten().len() == segment_total(facts),
    decreases facts.len(),
{
    if facts.len() > 0 {
        let rest = blocks.drop_first();
        assert forall|j: int| 0 <= j < rest.len() implies renders_fact(
            facts.drop_first()[j],
            #[trigger] rest[j],
        ) by {
            assert(renders_fact(facts[j + 1], blocks[j + 1]));
        }
        lemma_blocks_len(facts.drop_first(), rest);
        assert(renders_fact(facts[0], blocks[0]));
    }
}

/// The fact lines of a render hold one line per line of each shown fact's
/// value, none dropped and none merged: as many lines as the values have
/// lines together.
pub proof fn lemma_info_block_len(facts: Seq<FactView>, info: Seq<Seq<char>>)
    requires
        is_info_block(facts, info),
    ensures
        info.len() == segment_total(facts),
{
    let blocks = choose|blocks: Seq<Seq<Seq<char>>>|
        #[trigger] blocks.flatten() == info && blocks.len() == facts.len() && forall|j: int|
            0 <= j < blocks.len() ==> renders_fact(facts[j], #[trigger] blocks[j]);
    lemma_blocks_len(facts, blocks);
}

} // verus!
