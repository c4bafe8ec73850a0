//! Logo transforms: size and style classes applied to a logo's art.
use vstd::prelude::*;
use vstd::string::*;
use crate::distro_logo::DistroLogo;
use crate::text::{lemma_lines_of_push, lines_of, same_text};

verus! {

/// The size class of a logo. `Medium` and `Large` show the art as it is.
#[derive(Clone, Copy, Debug, PartialEq, Eq, Structural)]
pub enum LogoSize {
    Small,
    Medium,
    Large,
}

/// The style class of a logo. Only `Minimal` changes the art.
#[derive(Clone, Copy, Debug, PartialEq, Eq, Structural)]
pub enum LogoStyle {
    Ascii,
    Unicode,
    Minimal,
}

/// The rows of art kept by `Minimal`.
pub const MINIMAL_ROWS: usize = 3;

/// Rows 0, 2, 4, ... of `art`.
pub open spec fn every_other<A>(art: Seq<A>) -> Seq<A> {
    Seq::new((art.len() + 1) / 2, |i: int| art[2 * i])
}

pub open spec fn sized<A>(art: Seq<A>, size: LogoSize) -> Seq<A> {
    if size == LogoSize::Small {
        every_other(art)
    } else {
        art
    }
}

pub open spec fn styled<A>(art: Seq<A>, style: LogoStyle) -> Seq<A> {
    if style == LogoStyle::Minimal && art.len() > MINIMAL_ROWS {
        art.take(MINIMAL_ROWS as int)
    } else {
        art
    }
}

/// The art shown for a logo: the size class first, then the style class.
pub open spec fn transformed<A>(art: Seq<A>, size: LogoSize, style: LogoStyle) -> Seq<A> {
    styled(sized(art, size), style)
}

/// The size class a name stands for: `small`, `medium` and `large` name
/// their class, any other name is `Medium`.
pub open spec fn size_named(name: Seq<char>) -> LogoSize {
    if name == "small"@ {
        LogoSize::Small
    } else if name == "large"@ {
        LogoSize::Large
    } else {
        LogoSize::Medium
    }
}

/// The style class a name stands for: `ascii`, `unicode` and `minimal`
/// name their class, any other name is `Ascii`.
pub open spec fn style_named(name: Seq<char>) -> LogoStyle {
    if name == "minimal"@ {
        LogoStyle::Minimal
    } else if name == "unicode"@ {
        LogoStyle::Unicode
    } else {
        LogoStyle::Ascii
    }
}

impl LogoSize {
    /// `small`, `medium` and `large` name their class; any other name is
    /// `Medium`.
    pub fn from_name(name: &str) -> (r: LogoSize)
        ensures
            r == size_named(name@),
    {
        if same_text(name, "small") {
            LogoSize::Small
        } else if same_text(name, "large") {
            LogoSize::Large
        } else {
            LogoSize::Medium
        }
    }
}

impl LogoStyle {
    /// `ascii`, `unicode` and `minimal` name their class; any other name is
    /// `Ascii`.
    pub fn from_name(name: &str) -> (r: LogoStyle)
        ensures
            r == style_named(name@),
    {
        if same_text(name, "minimal") {
            LogoStyle::Minimal
        } else if same_text(name, "unicode") {
            LogoStyle::Unicode
        } else {
            LogoStyle::Ascii
        }
    }
}

/// `art` transformed by `size` and then by `style`.
pub fn transform_art(art: &Vec<String>, size: LogoSize, style: LogoStyle) -> (r: Vec<String>)
    ensures
        lines_of(r@) == transformed(lines_of(art@), size, style),
{
    let ghost src = lines_of(art@);
    let step: usize = if size == LogoSize::Small { 2 } else { 1 };
    let ghost want = transformed(src, size, style);
    let limit: usize = if style == LogoStyle::Minimal { MINIMAL_ROWS } else { art.len() };
    let mut r: Vec<String> = Vec::new();
    let mut i: usize = 0;
    while i < art.len() && r.len() < limit
        invariant
            src == lines_of(art@),
            want == transformed(src, size, style),
            step == (if size == LogoSize::Small { 2usize } else { 1usize }),
            limit == (if style == LogoStyle::Minimal { MINIMAL_ROWS as nat } else { art@.len() }),
            step == 1 ==> r@.len() == i,
            step == 2 ==> r@.len() == (i + 1) / 2 && (i % 2 == 0 || i == art@.len()),
            r@.len() <= limit,
            i <= art@.len(),
            lines_of(r@) == sized(src, size).take(r@.len() as int),
        decreases art@.len() - i,
    {
        let ghost before = r@;
        let line = art[i].clone();
        r.push(line);
        proof {
            lemma_lines_of_push(before, line);
        }
        assert(lines_of(r@) =~= sized(src, size).take(r@.len() as int));
        i = i + 1;
        if step == 2 && i < art.len() {
            i = i + 1;
        }
    }
    assert(lines_of(r@) =~= want);
    r
}

/// The art of `logo` as shown at `size` and `style`.
pub fn get_logo_art(logo: &DistroLogo, size: LogoSize, style: LogoStyle) -> (r: Vec<String>)
    ensures
        lines_of(r@) == transformed(lines_of(logo.ascii_art@), size, style),
{
    transform_art(&logo.ascii_art, size, style)
}

} // verus!
