//! The typed configuration: every setting optional, with the defaults the
//! getters apply.
use vstd::prelude::*;
use vstd::string::*;

verus! {

/// The whole configuration.
pub struct Config {
    pub layout: String,
    pub output: OutputConfig,
    /// Colour text (`#RRGGBB`) by label; a later pair never hides an
    /// earlier one with the same label.
    pub colors: Vec<(String, String)>,
    /// Symbol by label.
    pub symbols: Vec<(String, String)>,
    pub logo: LogoConfig,
    pub theme: ThemeConfig,
    pub display: DisplayConfig,
}

/// What to show and how to place the logo.
pub struct OutputConfig {
    pub info_keys: Vec<String>,
    pub show_logo: Option<bool>,
    /// `left`, `right`, `top` or `bottom`.
    pub logo_position: Option<String>,
    /// `small`, `medium` or `large`.
    pub logo_size: Option<String>,
    pub logo_color: Option<String>,
    /// `ascii`, `unicode` or `minimal`.
    pub logo_style: Option<String>,
}

/// Logo settings.
pub struct LogoConfig {
    pub enabled: Option<bool>,
    /// `auto`, or a distribution identifier.
    pub distro: Option<String>,
    pub custom_ascii: Option<Vec<String>>,
    pub custom_colors: Option<Vec<String>>,
    pub padding: Option<usize>,
    /// `left`, `center` or `right`.
    pub alignment: Option<String>,
}

/// A colour theme.
pub struct ThemeConfig {
    pub name: Option<String>,
    pub primary_color: Option<String>,
    pub secondary_color: Option<String>,
    pub accent_color: Option<String>,
    pub background_color: Option<String>,
    pub text_color: Option<String>,
}

/// Frame and spacing settings.
pub struct DisplayConfig {
    pub width: Option<usize>,
    pub height: Option<usize>,
    pub border: Option<bool>,
    /// `single`, `double`, `rounded` or `none`.
    pub border_style: Option<String>,
    pub border_color: Option<String>,
    pub padding: Option<usize>,
    pub margin: Option<usize>,
    /// `left`, `center` or `right`.
    pub alignment: Option<String>,
    pub compact: Option<bool>,
    pub show_separators: Option<bool>,
    /// `dash`, `equals`, `dots` or `none`.
    pub separator_style: Option<String>,
}

/// The text of an optional string.
pub open spec fn text_of(o: Option<String>) -> Option<Seq<char>> {
    match o {
        Some(s) => Some(s@),
        None => None,
    }
}

/// Pairs of texts.
pub open spec fn text_pairs(pairs: Seq<(String, String)>) -> Seq<(Seq<char>, Seq<char>)> {
    pairs.map_values(|p: (String, String)| (p.0@, p.1@))
}

/// The value of the first pair whose key is `k`.
pub open spec fn first_value(pairs: Seq<(Seq<char>, Seq<char>)>, k: Seq<char>) -> Option<Seq<char>>
    decreases pairs.len(),
{
    if pairs.len() == 0 {
        None
    } else if pairs[0].0 == k {
        Some(pairs[0].1)
    } else {
        first_value(pairs.drop_first(), k)
    }
}

/// `pairs` with `k` now standing for `v`; every other key keeps its value.
fn put_first(pairs: &mut Vec<(String, String)>, k: &str, v: &String)
    ensures
        forall|q: Seq<char>|
            #[trigger] first_value(text_pairs(final(pairs)@), q) == if q == k@ {
                Some(v@)
            } else {
                first_value(text_pairs(old(pairs)@), q)
            },
{
    let ghost before = text_pairs(pairs@);
    pairs.insert(0, (String::from_str(k), v.clone()));
    assert(text_pairs(pairs@).drop_first() =~= before);
}

/// Puts `v`, where present, under `k`.
fn put_if_some(pairs: &mut Vec<(String, String)>, k: &str, v: &Option<String>)
    ensures
        forall|q: Seq<char>|
            #[trigger] first_value(text_pairs(final(pairs)@), q) == if q == k@ && v.is_some() {
                text_of(*v)
            } else {
                first_value(text_pairs(old(pairs)@), q)
            },
{
    match v {
        Some(s) => put_first(pairs, k, s),
        None => {},
    }
}

fn copy_pairs(pairs: &Vec<(String, String)>) -> (r: Vec<(String, String)>)
    ensures
        text_pairs(r@) == text_pairs(pairs@),
{
    let mut r: Vec<(String, String)> = Vec::new();
    let mut i: usize = 0;
    while i < pairs.len()
        invariant
            i <= pairs@.len(),
            text_pairs(r@) == text_pairs(pairs@.take(i as int)),
        decreases pairs@.len() - i,
    {
        let k = pairs[i].0.clone();
        let v = pairs[i].1.clone();
        let ghost before = r@;
        r.push((k, v));
        assert(r@ == before.push((k, v)));
        assert(k@ == pairs@[i as int].0@ && v@ == pairs@[i as int].1@);
        assert(text_pairs(r@) =~= text_pairs(before).push((k@, v@)));
        assert(text_pairs(pairs@.take(i + 1)) =~= text_pairs(pairs@.take(i as int)).push((k@, v@)));
        i = i + 1;
    }
    assert(pairs@.take(pairs@.len() as int) =~= pairs@);
    r
}

impl Config {
    /// The colours by label, with the theme's primary, secondary and accent
    /// colours, where set, under `primary`, `secondary` and `accent`.
    pub fn get_theme_colors(&self) -> (r: Vec<(String, String)>)
        ensures
            forall|q: Seq<char>|
                #[trigger] first_value(text_pairs(r@), q) == if q == "accent"@
                    && self.theme.accent_color.is_some() {
                    text_of(self.theme.accent_color)
                } else if q == "secondary"@ && self.theme.secondary_color.is_some() {
                    text_of(self.theme.secondary_color)
                } else if q == "primary"@ && self.theme.primary_color.is_some() {
                    text_of(self.theme.primary_color)
                } else {
                    first_value(text_pairs(self.colors@), q)
                },
    {
        let mut colors = copy_pairs(&self.colors);
        put_if_some(&mut colors, "primary", &self.theme.primary_color);
        put_if_some(&mut colors, "secondary", &self.theme.secondary_color);
        put_if_some(&mut colors, "accent", &self.theme.accent_color);
        colors
    }

    /// Whether to show a logo; shown by default.
    pub fn should_show_logo(&self) -> (r: bool)
        ensures
            r == match self.output.show_logo {
                Some(b) => b,
                None => true,
            },
    {
        match self.output.show_logo {
            Some(b) => b,
            None => true,
        }
    }

    /// The logo position name; `left` by default.
    pub fn get_logo_position(&self) -> (r: &str)
        ensures
            r@ == match self.output.logo_position {
                Some(s) => s@,
                None => "left"@,
            },
    {
        match &self.output.logo_position {
            Some(s) => s.as_str(),
            None => "left",
        }
    }

    /// The logo size name; `medium` by default.
    pub fn get_logo_size(&self) -> (r: &str)
        ensures
            r@ == match self.output.logo_size {
                Some(s) => s@,
                None => "medium"@,
            },
    {
        match &self.output.logo_size {
            Some(s) => s.as_str(),
            None => "medium",
        }
    }

    /// The logo style name; `ascii` by default.
    pub fn get_logo_style(&self) -> (r: &str)
        ensures
            r@ == match self.output.logo_style {
                Some(s) => s@,
                None => "ascii"@,
            },
    {
        match &self.output.logo_style {
            Some(s) => s.as_str(),
            None => "ascii",
        }
    }

    /// Whether compact mode is on; off by default.
    pub fn is_compact_mode(&self) -> (r: bool)
        ensures
            r == match self.display.compact {
                Some(b) => b,
                None => false,
            },
    {
        match self.display.compact {
            Some(b) => b,
            None => false,
        }
    }

    /// Whether to frame the output; off by default.
    pub fn should_show_border(&self) -> (r: bool)
        ensures
            r == match self.display.border {
                Some(b) => b,
                None => false,
            },
    {
        match self.display.border {
            Some(b) => b,
            None => false,
        }
    }

    /// Whether to show separators; on by default.
    pub fn should_show_separators(&self) -> (r: bool)
        ensures
            r == match self.display.show_separators {
                Some(b) => b,
                None => true,
            },
    {
        match self.display.show_separators {
            Some(b) => b,
            None => true,
        }
    }
}

impl Default for LogoConfig {
    fn default() -> (r: Self)
        ensures
            r.enabled == Some(true),
            text_of(r.distro) == Some("auto"@),
            r.custom_ascii.is_none(),
            r.custom_colors.is_none(),
            r.padding == Some(2usize),
            text_of(r.alignment) == Some("left"@),
    {
        LogoConfig {
            enabled: Some(true),
            distro: Some(String::from_str("auto")),
            custom_ascii: None,
            custom_colors: None,
            padding: Some(2),
            alignment: Some(String::from_str("left")),
        }
    }
}

impl Default for ThemeConfig {
    fn default() -> (r: Self)
        ensures
            text_of(r.name) == Some("default"@),
            text_of(r.primary_color) == Some("#FF79C6"@),
            text_of(r.secondary_color) == Some("#50FA7B"@),
            text_of(r.accent_color) == Some("#BD93F9"@),
            r.background_color.is_none(),
            text_of(r.text_color) == Some("#F8F8F2"@),
    {
        ThemeConfig {
            name: Some(String::from_str("default")),
            primary_color: Some(String::from_str("#FF79C6")),
            secondary_color: Some(String::from_str("#50FA7B")),
            accent_color: Some(String::from_str("#BD93F9")),
            background_color: None,
            text_color: Some(String::from_str("#F8F8F2")),
        }
    }
}

impl Default for DisplayConfig {
    fn default() -> (r: Self)
        ensures
            r.width.is_none(),
            r.height.is_none(),
            r.border == Some(false),
            text_of(r.border_style) == Some("single"@),
            text_of(r.border_color) == Some("#6272A4"@),
            r.padding == Some(1usize),
            r.margin == Some(0usize),
            text_of(r.alignment) == Some("left"@),
            r.compact == Some(false),
            r.show_separators == Some(true),
            text_of(r.separator_style) == Some("dash"@),
    {
        DisplayConfig {
            width: None,
            height: None,
            border: Some(false),
            border_style: Some(String::from_str("single")),
            border_color: Some(String::from_str("#6272A4")),
            padding: Some(1),
            margin: Some(0),
            alignment: Some(String::from_str("left")),
            compact: Some(false),
            show_separators: Some(true),
            separator_style: Some(String::from_str("dash")),
        }
    }
}

} // verus!
