//! The render pipeline: choosing the facts to show, formatting them, and
//! composing them with the detected distribution's logo.
use vstd::prelude::*;
use vstd::string::*;
use crate::distro_logo::{default_id, DistroLogo, LogoManager};
use crate::format::{format_fact, opt_view, renders_fact, FactEntry, FactView};
use crate::layout::{
    compose, composed, frame_rows, framed, position_named, LayoutOptions, LogoPosition,
};
use crate::logo_art::{get_logo_art, size_named, style_named, transformed, LogoSize, LogoStyle};
use crate::text::{
    alphanumeric, is_alphanumeric, lemma_lines_of_push, lines_of, lowercase_of, to_lowercase,
};

verus! {

broadcast use vstd::seq_lib::group_seq_properties;

/// The layout name of an output.
pub struct OutputConfig {
    pub layout: String,
}

impl OutputConfig {
    pub fn new(layout: String) -> (r: Self)
        ensures
            r.layout == layout,
    {
        OutputConfig { layout }
    }
}

/// The settings of one render, each as read from the configuration;
/// an absent one takes its default.
pub struct RenderSettings {
    /// Whether to show a logo; shown by default.
    pub show_logo: Option<bool>,
    /// `left` by default.
    pub logo_position: Option<String>,
    /// `medium` by default.
    pub logo_size: Option<String>,
    /// `ascii` by default.
    pub logo_style: Option<String>,
    /// Off by default.
    pub compact: Option<bool>,
    /// Off by default.
    pub border: Option<bool>,
    /// The labels to show, in order; every fact, in order, by default.
    pub info_keys: Option<Vec<String>>,
    /// Colour text (`#RRGGBB`) by label.
    pub colors: Vec<(String, String)>,
    /// Symbol by label.
    pub symbols: Vec<(String, String)>,
    /// Visibility flags by flag name (`show_<label>`); a label without a
    /// flag is shown.
    pub flags: Vec<(String, bool)>,
}

/// Pairs keyed by the text of their key.
pub open spec fn keyed<V>(pairs: Seq<(String, V)>) -> Seq<(Seq<char>, V)> {
    pairs.map_values(|p: (String, V)| (p.0@, p.1))
}

/// The value of the first pair whose key is `k`.
pub open spec fn assoc<V>(pairs: Seq<(Seq<char>, V)>, k: Seq<char>) -> Option<V>
    decreases pairs.len(),
{
    if pairs.len() == 0 {
        None
    } else if pairs[0].0 == k {
        Some(pairs[0].1)
    } else {
        assoc(pairs.drop_first(), k)
    }
}

proof fn lemma_assoc_skip<V>(pairs: Seq<(Seq<char>, V)>, k: Seq<char>, i: int)
    requires
        0 <= i <= pairs.len(),
        forall|j: int| 0 <= j < i ==> pairs[j].0 != k,
    ensures
        assoc(pairs, k) == assoc(pairs.skip(i), k),
    decreases i,
{
    if i > 0 {
        lemma_assoc_skip(pairs.drop_first(), k, i - 1);
        assert(pairs.drop_first().skip(i - 1) =~= pairs.skip(i));
    } else {
        assert(pairs.skip(0) =~= pairs);
    }
}

/// The value paired with the first key equal to `k`.
pub fn lookup<'a, V>(pairs: &'a Vec<(String, V)>, k: &str) -> (r: Option<&'a V>)
    ensures
        r.is_some() == assoc(keyed(pairs@), k@).is_some(),
        r.is_some() ==> *r.unwrap() == assoc(keyed(pairs@), k@).unwrap(),
{
    let ghost ks = keyed(pairs@);
    let mut i: usize = 0;
    while i < pairs.len()
        invariant
            ks == keyed(pairs@),
            i <= pairs@.len(),
            forall|j: int| 0 <= j < i ==> ks[j].0 != k@,
        decreases pairs@.len() - i,
    {
        if crate::text::same_text(pairs[i].0.as_str(), k) {
            proof {
                lemma_assoc_skip(ks, k@, i as int);
            }
            return Some(&pairs[i].1);
        }
        i = i + 1;
    }
    proof {
        lemma_assoc_skip(ks, k@, pairs@.len() as int);
    }
    None
}

/// `s` with every character that is not alphanumeric replaced by `_`.
pub open spec fn sanitized(s: Seq<char>) -> Seq<char> {
    s.map_values(|c: char| if alphanumeric(c) { c } else { '_' })
}

/// The name of the visibility flag of a label already in lowercase.
pub open spec fn flag_name_of_lowered(lowered: Seq<char>) -> Seq<char> {
    "show_"@ + sanitized(lowered)
}

/// The name of the visibility flag of a label: `show_` and the label in
/// lowercase, every character that is not alphanumeric replaced by `_`.
pub open spec fn flag_name(key: Seq<char>) -> Seq<char> {
    flag_name_of_lowered(lowercase_of(key))
}

/// The visibility flag name of a label that is already in lowercase.
pub fn flag_key_of_lowered(lowered: &str) -> (r: String)
    ensures
        r@ == flag_name_of_lowered(lowered@),
{
    let mut r = String::from_str("show_");
    let ghost head = r@;
    let n = lowered.unicode_len();
    let mut i: usize = 0;
    while i < n
        invariant
            n == lowered@.len(),
            i <= n,
            r@ == head + sanitized(lowered@.take(i as int)),
        decreases n - i,
    {
        let c = lowered.get_char(i);
        if is_alphanumeric(c) {
            let piece = lowered.substring_char(i, i + 1);
            r.append(piece);
        } else {
            r.append("_");
            proof {
                reveal_strlit("_");
            }
        }
        assert(r@ =~= head + sanitized(lowered@.take(i + 1)));
        i = i + 1;
    }
    assert(lowered@.take(n as int) =~= lowered@);
    r
}

/// The visibility flag name of a label.
pub fn flag_key(key: &str) -> (r: String)
    ensures
        r@ == flag_name(key@),
{
    let lowered = to_lowercase(key);
    flag_key_of_lowered(lowered.as_str())
}

/// Whether the label `key` is shown under the visibility flags `flags`.
pub open spec fn is_shown(flags: Seq<(Seq<char>, bool)>, key: Seq<char>) -> bool {
    match assoc(flags, flag_name(key)) {
        Some(b) => b,
        None => true,
    }
}

/// The facts shown for the labels `keys`, in their order: a label is
/// skipped where its flag hides it or no fact carries it.
pub open spec fn selection(
    keys: Seq<Seq<char>>,
    facts: Seq<(Seq<char>, String)>,
    colors: Seq<(Seq<char>, String)>,
    symbols: Seq<(Seq<char>, String)>,
    flags: Seq<(Seq<char>, bool)>,
) -> Seq<FactView>
    decreases keys.len(),
{
    if keys.len() == 0 {
        Seq::empty()
    } else {
        let prev = selection(keys.drop_last(), facts, colors, symbols, flags);
        let k = keys.last();
        if is_shown(flags, k) && assoc(facts, k).is_some() {
            prev.push((k, assoc(facts, k).unwrap()@, opt_view(assoc(colors, k)), opt_view(assoc(symbols, k))))
        } else {
            prev
        }
    }
}

impl RenderSettings {
    /// The labels asked for: the configured ones, else every fact's label.
    pub open spec fn wanted_keys(&self, facts: Seq<(String, String)>) -> Seq<Seq<char>> {
        match self.info_keys {
            Some(ks) => lines_of(ks@),
            None => facts.map_values(|p: (String, String)| p.0@),
        }
    }

    /// The facts this render shows.
    pub open spec fn selected(&self, facts: Seq<(String, String)>) -> Seq<FactView> {
        selection(
            self.wanted_keys(facts),
            keyed(facts),
            keyed(self.colors@),
            keyed(self.symbols@),
            keyed(self.flags@),
        )
    }

    pub open spec fn logo_shown(&self) -> bool {
        match self.show_logo {
            Some(b) => b,
            None => true,
        }
    }

    pub open spec fn size(&self) -> LogoSize {
        match self.logo_size {
            Some(s) => size_named(s@),
            None => LogoSize::Medium,
        }
    }

    pub open spec fn style(&self) -> LogoStyle {
        match self.logo_style {
            Some(s) => style_named(s@),
            None => LogoStyle::Ascii,
        }
    }

    /// The layout options, defaults applied.
    pub open spec fn options(&self) -> LayoutOptions {
        LayoutOptions {
            position: match self.logo_position {
                Some(s) => position_named(s@),
                None => LogoPosition::Left,
            },
            show_border: match self.border {
                Some(b) => b,
                None => false,
            },
            compact: match self.compact {
                Some(b) => b,
                None => false,
            },
        }
    }

    /// The logo size class, `Medium` where none is set.
    pub fn resolved_size(&self) -> (r: LogoSize)
        ensures
            r == self.size(),
    {
        match &self.logo_size {
            Some(s) => LogoSize::from_name(s.as_str()),
            None => LogoSize::Medium,
        }
    }

    /// The logo style class, `Ascii` where none is set.
    pub fn resolved_style(&self) -> (r: LogoStyle)
        ensures
            r == self.style(),
    {
        match &self.logo_style {
            Some(s) => LogoStyle::from_name(s.as_str()),
            None => LogoStyle::Ascii,
        }
    }

    /// The layout options, defaults applied.
    pub fn resolved_options(&self) -> (r: LayoutOptions)
        ensures
            r == self.options(),
    {
        let position = match &self.logo_position {
            Some(s) => LogoPosition::from_name(s.as_str()),
            None => LogoPosition::Left,
        };
        let show_border = match self.border {
            Some(b) => b,
            None => false,
        };
        let compact = match self.compact {
            Some(b) => b,
            None => false,
        };
        LayoutOptions { position, show_border, compact }
    }
}

fn opt_clone(o: Option<&String>) -> (r: Option<String>)
    ensures
        opt_view(r) == match o {
            Some(s) => Some(s@),
            None => None::<Seq<char>>,
        },
{
    match o {
        Some(s) => Some(s.clone()),
        None => None,
    }
}

/// The facts to show, in order, each with its colour text and symbol.
pub fn select_facts(facts: &Vec<(String, String)>, settings: &RenderSettings) -> (r: Vec<FactEntry>)
    ensures
        r@.map_values(|f: FactEntry| f@) == settings.selected(facts@),
{
    let mut keys: Vec<String> = Vec::new();
    match &settings.info_keys {
        Some(ks) => {
            keys = ks.clone();
            assert(lines_of(keys@) == settings.wanted_keys(facts@)) by {
                assert(keys@ =~= ks@);
            }
        },
        None => {
            let mut i: usize = 0;
            while i < facts.len()
                invariant
                    i <= facts@.len(),
                    lines_of(keys@) == facts@.take(i as int).map_values(|p: (String, String)| p.0@),
                decreases facts@.len() - i,
            {
                let ghost before = keys@;
                let k = facts[i].0.clone();
                keys.push(k);
                proof {
                    lemma_lines_of_push(before, k);
                }
                assert(lines_of(keys@) =~= facts@.take(i + 1).map_values(|p: (String, String)| p.0@));
                i = i + 1;
            }
            assert(facts@.take(facts@.len() as int) =~= facts@);
        },
    }
    let ghost wanted = settings.wanted_keys(facts@);
    let ghost fs = keyed(facts@);
    let ghost cs = keyed(settings.colors@);
    let ghost ss = keyed(settings.symbols@);
    let ghost gs = keyed(settings.flags@);
    let mut r: Vec<FactEntry> = Vec::new();
    let mut i: usize = 0;
    while i < keys.len()
        invariant
            lines_of(keys@) == wanted,
            wanted == settings.wanted_keys(facts@),
            fs == keyed(facts@),
            cs == keyed(settings.colors@),
            ss == keyed(settings.symbols@),
            gs == keyed(settings.flags@),
            i <= keys@.len(),
            r@.map_values(|f: FactEntry| f@) == selection(wanted.take(i as int), fs, cs, ss, gs),
        decreases keys@.len() - i,
    {
        let key = keys[i].as_str();
        let ghost k = wanted[i as int];
        assert(wanted.take(i + 1).drop_last() =~= wanted.take(i as int));
        assert(wanted.take(i + 1).last() == k);
        let flag = flag_key(key);
        let shown = match lookup(&settings.flags, flag.as_str()) {
            Some(b) => *b,
            None => true,
        };
        if shown {
            match lookup(facts, key) {
                Some(value) => {
                    let entry = FactEntry {
                        key: keys[i].clone(),
                        value: value.clone(),
                        color: opt_clone(lookup(&settings.colors, key)),
                        symbol: opt_clone(lookup(&settings.symbols, key)),
                    };
                    let ghost before = r@;
                    r.push(entry);
                    assert(r@.map_values(|f: FactEntry| f@) =~= before.map_values(|f: FactEntry| f@).push(entry@));
                },
                None => {},
            }
        }
        i = i + 1;
    }
    assert(wanted.take(keys@.len() as int) =~= wanted);
    r
}

/// Whether `out` is the fact blocks of `facts` one after the other, each
/// block showing its fact.
pub open spec fn is_info_block(facts: Seq<FactView>, out: Seq<Seq<char>>) -> bool {
    exists|blocks: Seq<Seq<Seq<char>>>|
        #[trigger] blocks.flatten() == out && blocks.len() == facts.len() && forall|j: int|
            0 <= j < blocks.len() ==> renders_fact(facts[j], #[trigger] blocks[j])
}

/// The display lines of the facts, one block per fact, in order.
pub fn format_facts(facts: &Vec<FactEntry>) -> (r: Vec<String>)
    ensures
        is_info_block(facts@.map_values(|f: FactEntry| f@), lines_of(r@)),
{
    let ghost views = facts@.map_values(|f: FactEntry| f@);
    let ghost mut blocks: Seq<Seq<Seq<char>>> = Seq::empty();
    let mut r: Vec<String> = Vec::new();
    let mut i: usize = 0;
    while i < facts.len()
        invariant
            views == facts@.map_values(|f: FactEntry| f@),
            i <= facts@.len(),
            blocks.len() == i,
            lines_of(r@) == blocks.flatten(),
            forall|j: int| 0 <= j < i ==> renders_fact(views[j], #[trigger] blocks[j]),
        decreases facts@.len() - i,
    {
        let mut lines = format_fact(&facts[i]);
        let ghost before = r@;
        let ghost block = lines_of(lines@);
        r.append(&mut lines);
        proof {
            assert(lines_of(r@) =~= lines_of(before) + block);
            blocks.lemma_flatten_push(block);
            blocks = blocks.push(block);
        }
        i = i + 1;
    }
    assert(blocks.flatten() == lines_of(r@));
    r
}

/// What is shown for the fact lines `info`: beside the logo art `art` as
/// `options` lays them out, or alone (framed where asked) without a logo.
pub open spec fn shown_output(
    info: Seq<Seq<char>>,
    art: Option<Seq<Seq<char>>>,
    options: LayoutOptions,
) -> Seq<Seq<char>> {
    match art {
        Some(a) => composed(a, info, options),
        None => framed(info, options.show_border),
    }
}

/// The logo registered for `detected`, or the `default` one.
pub open spec fn detected_entry(manager: LogoManager, detected: Seq<char>) -> DistroLogo {
    if manager.ids().contains(detected) {
        manager.entry_for(detected)
    } else {
        manager.entry_for(default_id())
    }
}

/// The art shown for the logo of `detected` under `settings`, if a logo
/// is shown at all.
pub open spec fn shown_art(
    settings: &RenderSettings,
    manager: LogoManager,
    detected: Seq<char>,
) -> Option<Seq<Seq<char>>> {
    if settings.logo_shown() {
        Some(
            transformed(
                lines_of(detected_entry(manager, detected).ascii_art@),
                settings.size(),
                settings.style(),
            ),
        )
    } else {
        None
    }
}

/// The lines to print for the facts `system_info` (label, value) under
/// `settings`, with the logo of the detected distribution `detected`.
pub fn display_output(
    system_info: &Vec<(String, String)>,
    settings: &RenderSettings,
    manager: &LogoManager,
    detected: &str,
) -> (r: Vec<String>)
    requires
        manager.wf(),
    ensures
        exists|info: Seq<Seq<char>>|
            is_info_block(settings.selected(system_info@), info) && lines_of(r@) == #[trigger] shown_output(
                info,
                shown_art(settings, *manager, detected@),
                settings.options(),
            ),
{
    let entries = select_facts(system_info, settings);
    let info_lines = format_facts(&entries);
    let ghost info = lines_of(info_lines@);
    let options = settings.resolved_options();
    let show_logo = match settings.show_logo {
        Some(b) => b,
        None => true,
    };
    let r = if show_logo {
        let logo = manager.get_detected_logo(detected);
        let art = get_logo_art(logo, settings.resolved_size(), settings.resolved_style());
        compose(&art, &info_lines, options)
    } else {
        frame_rows(info_lines, options.show_border)
    };
    assert(is_info_block(settings.selected(system_info@), info));
    assert(lines_of(r@) == shown_output(info, shown_art(settings, *manager, detected@), settings.options()));
    r
}

/// The art of the detected distribution's logo alone, at the size and
/// style of `settings`.
pub fn display_logo_only(settings: &RenderSettings, manager: &LogoManager, detected: &str) -> (r:
    Vec<String>)
    requires
        manager.wf(),
    ensures
        lines_of(r@) == transformed(
            lines_of(detected_entry(*manager, detected@).ascii_art@),
            settings.size(),
            settings.style(),
        ),
{
    let logo = manager.get_detected_logo(detected);
    get_logo_art(logo, settings.resolved_size(), settings.resolved_style())
}

/// The listing of the registered logos: a heading, then one `  - <id>`
/// line per identifier.
pub open spec fn listing(ids: Seq<Seq<char>>) -> Seq<Seq<char>> {
    seq!["Available logos:"@] + ids.map_values(|id: Seq<char>| "  - "@ + id)
}

/// The lines that list the registered logos.
pub fn list_available_logos(manager: &LogoManager) -> (r: Vec<String>)
    ensures
        lines_of(r@) == listing(manager.ids()),
{
    let ids = manager.list_available_logos();
    let mut r: Vec<String> = Vec::new();
    r.push(String::from_str("Available logos:"));
    let mut i: usize = 0;
    while i < ids.len()
        invariant
            ids@.len() == manager.ids().len(),
            forall|j: int| 0 <= j < ids@.len() ==> #[trigger] ids@[j]@ == manager.ids()[j],
            i <= ids@.len(),
            lines_of(r@) == listing(manager.ids().take(i as int)),
        decreases ids@.len() - i,
    {
        let mut line = String::from_str("  - ");
        line.append(ids[i].as_str());
        let ghost before = r@;
        r.push(line);
        proof {
            lemma_lines_of_push(before, line);
        }
        assert(lines_of(r@) =~= listing(manager.ids().take(i + 1)));
        i = i + 1;
    }
    assert(manager.ids().take(ids@.len() as int) =~= manager.ids());
    r
}

} // verus!
