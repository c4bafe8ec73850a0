//! Fact formatting: one labelled, coloured line per segment of a fact's
//! value.
use vstd::prelude::*;
use vstd::string::*;
use crate::color::{escape_free, is_painted, resolve_color, resolved_color, truecolor_text, Rgb};
use crate::text::{lines_of, line_segments, segments_of};

verus! {

/// One fact to show: a label, a value that may span several lines, and the
/// optional colour (`#RRGGBB`) and symbol it is shown with.
pub struct FactEntry {
    pub key: String,
    pub value: String,
    pub color: Option<String>,
    pub symbol: Option<String>,
}

/// A fact as label, value, colour text and symbol.
pub type FactView = (Seq<char>, Seq<char>, Option<Seq<char>>, Option<Seq<char>>);

/// The text of an optional string.
pub open spec fn opt_view(o: Option<String>) -> Option<Seq<char>> {
    match o {
        Some(s) => Some(s@),
        None => None,
    }
}

impl View for FactEntry {
    type V = FactView;

    open spec fn view(&self) -> FactView {
        (self.key@, self.value@, opt_view(self.color), opt_view(self.symbol))
    }
}

/// The symbol shown before the label; empty where there is none.
pub open spec fn symbol_or_empty(symbol: Option<Seq<char>>) -> Seq<char> {
    match symbol {
        Some(s) => s,
        None => Seq::empty(),
    }
}

/// `p` is `t` painted in `c`, wherever `t` holds no escape character.
pub open spec fn paints(c: Rgb, t: Seq<char>, p: Seq<char>) -> bool {
    escape_free(t) ==> is_painted(c, t, p)
}

/// The first line of a fact: `<symbol> <key>: <segment>`.
pub open spec fn label_line(symbol: Seq<char>, key: Seq<char>, first: Seq<char>) -> Seq<char> {
    symbol + seq![' '] + key + seq![':', ' '] + first
}

/// The lines of a fact from its painted segments: the first carries the
/// symbol and the label, the others stand alone.
pub open spec fn labelled(symbol: Seq<char>, key: Seq<char>, segments: Seq<Seq<char>>) -> Seq<
    Seq<char>,
> {
    if segments.len() == 0 {
        segments
    } else {
        segments.update(0, label_line(symbol, key, segments[0]))
    }
}

/// Whether `out` shows the segments `segments` of a fact labelled `key`
/// under `symbol`, every part painted in `c`.
pub open spec fn is_fact_rendering(
    symbol: Seq<char>,
    key: Seq<char>,
    c: Rgb,
    segments: Seq<Seq<char>>,
    out: Seq<Seq<char>>,
) -> bool {
    &&& out.len() == segments.len()
    &&& forall|i: int| 1 <= i < out.len() ==> paints(c, segments[i], #[trigger] out[i])
    &&& exists|pk: Seq<char>, p0: Seq<char>|
        paints(c, key, pk) && paints(c, segments[0], p0) && out[0] == #[trigger] label_line(
            symbol,
            pk,
            p0,
        )
}

/// Whether `out` shows fact `f`: one line per segment of its value, every
/// part painted in its colour (white where it has none or it is malformed).
pub open spec fn renders_fact(f: FactView, out: Seq<Seq<char>>) -> bool {
    is_fact_rendering(symbol_or_empty(f.3), f.0, resolved_color(f.2), segments_of(f.1), out)
}

/// `<symbol> <key>: <first>`.
pub fn label_line_text(symbol: &str, key: &str, first: &str) -> (r: String)
    ensures
        r@ == label_line(symbol@, key@, first@),
{
    let mut r = String::new();
    r.append(symbol);
    r.append(" ");
    r.append(key);
    r.append(": ");
    r.append(first);
    proof {
        reveal_strlit(" ");
        reveal_strlit(": ");
    }
    assert(r@ =~= label_line(symbol@, key@, first@));
    r
}

/// Lays out the already painted segments of a fact: the first one after
/// the symbol and the painted label, the others unchanged.
pub fn label_segments(symbol: &str, painted_key: &str, painted: Vec<String>) -> (r: Vec<String>)
    ensures
        lines_of(r@) == labelled(symbol@, painted_key@, lines_of(painted@)),
{
    let mut painted = painted;
    if painted.len() == 0 {
        return painted;
    }
    let first = label_line_text(symbol, painted_key, painted[0].as_str());
    let ghost before = painted@;
    painted.set(0, first);
    assert(lines_of(painted@) =~= labelled(symbol@, painted_key@, lines_of(before)));
    painted
}

/// The display lines of a fact: one per line of its value (`\n` or `\r\n`
/// ends a line), the first labelled `<symbol> <key>: `, every part painted in the
/// fact's colour (white where it has none or it is malformed).
pub fn format_fact(fact: &FactEntry) -> (r: Vec<String>)
    ensures
        renders_fact(fact@, lines_of(r@)),
{
    let c = match &fact.color {
        Some(h) => resolve_color(Some(h.as_str())),
        None => resolve_color(None),
    };
    let segments = line_segments(fact.value.as_str());
    let ghost segs = segments_of(fact.value@);
    let mut painted: Vec<String> = Vec::new();
    let mut i: usize = 0;
    while i < segments.len()
        invariant
            lines_of(segments@) == segs,
            i <= segments.len(),
            painted@.len() == i,
            forall|j: int| 0 <= j < i ==> paints(c, segs[j], #[trigger] painted@[j]@),
        decreases segments.len() - i,
    {
        let p = truecolor_text(segments[i].as_str(), c);
        painted.push(p);
        i = i + 1;
    }
    let pk = truecolor_text(fact.key.as_str(), c);
    let symbol: &str = match &fact.symbol {
        Some(s) => s.as_str(),
        None => "",
    };
    proof {
        reveal_strlit("");
    }
    let ghost ps = lines_of(painted@);
    let r = label_segments(symbol, pk.as_str(), painted);
    assert(segs.len() >= 1) by {
        crate::text::lemma_split_lines_len(fact.value@);
    }
    assert(paints(c, segs[0], ps[0]));
    assert(lines_of(r@)[0] == label_line(symbol_or_empty(fact@.3), pk@, ps[0]));
    r
}

} // verus!
