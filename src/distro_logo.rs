//! The built-in catalog of distribution logos, and the choice of a logo
//! for a detected distribution.
use vstd::prelude::*;
use vstd::string::*;
use crate::color::{is_hex_digit, parse_hex_color};
use crate::text::{find_line, first_line_starting, lines_of, lowercase_of, same_text, segments_of, to_lowercase};

verus! {

/// A distribution's logo: its display name, its art, one string per row,
/// and its brand colours as `#RRGGBB`.
pub struct DistroLogo {
    pub name: String,
    pub ascii_art: Vec<String>,
    pub colors: Vec<String>,
}

impl DistroLogo {
    pub fn new(name: String, ascii_art: Vec<String>, colors: Vec<String>) -> (r: Self)
        ensures
            r.name == name,
            r.ascii_art == ascii_art,
            r.colors == colors,
    {
        DistroLogo { name, ascii_art, colors }
    }
}

/// The identifiers of the built-in catalog, in the order they are loaded.
pub open spec fn builtin_ids() -> Seq<Seq<char>> {
    seq![
        "arch"@,
        "ubuntu"@,
        "debian"@,
        "fedora"@,
        "manjaro"@,
        "opensuse"@,
        "centos"@,
        "alpine"@,
        "gentoo"@,
        "default"@,
    ]
}

/// The display names of the built-in entries, in the same order.
pub open spec fn builtin_names() -> Seq<Seq<char>> {
    seq![
        "Arch Linux"@,
        "Ubuntu"@,
        "Debian"@,
        "Fedora"@,
        "Manjaro"@,
        "openSUSE"@,
        "CentOS"@,
        "Alpine"@,
        "Gentoo"@,
        "Linux"@,
    ]
}

/// The identifier of the entry every unknown distribution falls back to.
pub open spec fn default_id() -> Seq<char> {
    "default"@
}

/// The art of the `arch` logo.
pub open spec fn arch_art() -> Seq<Seq<char>> {
    seq![
        "                   -`"@,
        "                  .o+`"@,
        "                 `ooo/"@,
        "                `+oooo:"@,
        "               `+oooooo:"@,
        "               -+oooooo+:"@,
        "             `/:-:++oooo+:"@,
        "            `/++++/+++++++:"@,
        "           `/++++++++++++++:"@,
        "          `/+++ooooooooooooo/`"@,
        "         ./ooosssso++osssssso+`"@,
        "        .oossssso-````/ossssss+`"@,
        "       -osssssso.      :ssssssso."@,
        "      :osssssss/        osssso+++."@,
        "     /ossssssss/        +ssssooo/-"@,
        "   `/ossssso+/:-        -:/+osssso+-"@,
        "  `+sso+:-`                 `.-/+oso:"@,
        " `++:.                           `-/+/"@,
        " .`                                 `/"@,
    ]
}

/// The art of the `ubuntu` logo.
pub open spec fn ubuntu_art() -> Seq<Seq<char>> {
    seq![
        "                          ./+o+-"@,
        "                  yyyyy- -yyyyyy+"@,
        "               ://+//////-yyyyyyo"@,
        "           .++ .:/++++++/-.+sss/`"@,
        "         .:++o:  /++++++++/:--:/-"@,
        "        o:+o+:++.`..```.-/oo+++++/"@,
        "       .:+o:+o/.          `+sssoo+/"@,
        "  .++/+:+oo+o:`             /sssooo."@,
        " /+++//+:`oo+o               /::--:."@,
        r" \+/+o+++`o++o               ++////."@,
        "  .++.o+++oo+:`             /dddhhh."@,
        "       .+.o+oo:.          `oddhhhh+"@,
        r"        \+.++o+o``-````.:ohdhhhhh+"@,
        "         `:o+++ `ohhhhhhhhyo++os:"@,
        "           .o:`.syhhhhhhh/.oo++o`"@,
        "               /osyyyyyyo++ooo+++/"@,
        r"                   ````` +oo+++o\:"@,
        "                          `oo++."@,
    ]
}

/// The art of the `debian` logo.
pub open spec fn debian_art() -> Seq<Seq<char>> {
    seq![
        "  _____"@,
        " /  ___|"@,
        "|  |  __"@,
        "|  | |_ |"@,
        "|  |__| |"@,
        r" \_____|"@,
    ]
}

/// The art of the `fedora` logo.
pub open spec fn fedora_art() -> Seq<Seq<char>> {
    seq![
        "             .',;::::;,'."@,
        "         .';:cccccccccccc:;:."@,
        "      .;cccccccccccccccccccccc;."@,
        "    .:cccccccccccccccccccccccccc:."@,
        "  .;ccccccccccccc;.:dddl:.;ccccccc;."@,
        " .:ccccccccccccc;OWMKOOXMWd;ccccccc:."@,
        ".:ccccccccccccc;KMMc;cc;xMMc:ccccccc:."@,
        ",cccccccccccccc;MMM.;cc;;WW::cccccccc,"@,
        ":cccccccccccccc;MMM.;cccccccccccccccc:"@,
        ":ccccccc;oxOOOo;MMM0OOkxo;cccccccccccc:"@,
        ",cccccccccccccc;MMM.;cccccccccccccccc,"@,
        ".:cccccccccccccc;MMMc.;ccccccccccccccc:."@,
        " .:cccccccccccccc;ddddl:.;cccccccccccc:."@,
        "  .;cccccccccccccccccccccccccccccc;."@,
        "    .:cccccccccccccccccccccccccc:."@,
        "      .;cccccccccccccccccccccc;."@,
        "         .';:cccccccccccc:;:."@,
        "             .',;::::;,'."@,
    ]
}

/// The art of the `manjaro` logo.
pub open spec fn manjaro_art() -> Seq<Seq<char>> {
    seq![
        "██████████████████  ████████"@,
        "██████████████████  ████████"@,
        "██████████████████  ████████"@,
        "██████████████████  ████████"@,
        "████████            ████████"@,
        "████████  ████████  ████████"@,
        "████████  ████████  ████████"@,
        "████████  ████████  ████████"@,
        "████████  ████████  ████████"@,
    ]
}

/// The art of the `opensuse` logo.
pub open spec fn opensuse_art() -> Seq<Seq<char>> {
    seq![
        "  ______"@,
        " / ____/"@,
        "/ /     "@,
        "/ /___  "@,
        "\\____/  "@,
    ]
}

/// The art of the `centos` logo.
pub open spec fn centos_art() -> Seq<Seq<char>> {
    seq![
        " ____"@,
        "/ ___|"@,
        "\\___ \\"@,
        " ___) |"@,
        "|____/"@,
    ]
}

/// The art of the `alpine` logo.
pub open spec fn alpine_art() -> Seq<Seq<char>> {
    seq![
        "   /\\"@,
        "  /  \\"@,
        " /    \\"@,
        "/______\\"@,
    ]
}

/// The art of the `gentoo` logo.
pub open spec fn gentoo_art() -> Seq<Seq<char>> {
    seq![
        " _-----_"@,
        "(       \\"@,
        "\\    0   \\"@,
        " \\        )"@,
        " /      _/"@,
        "(     _-"@,
        "\\____-"@,
    ]
}

/// The art of the `default` logo.
pub open spec fn default_art() -> Seq<Seq<char>> {
    seq![
        "    __  ___"@,
        "   /  |/  /"@,
        "  / /|_/ /"@,
        " / /  / /"@,
        "/_/  /_/"@,
    ]
}

/// The art of each built-in entry, in catalog order.
pub open spec fn builtin_art() -> Seq<Seq<Seq<char>>> {
    seq![
        arch_art(),
        ubuntu_art(),
        debian_art(),
        fedora_art(),
        manjaro_art(),
        opensuse_art(),
        centos_art(),
        alpine_art(),
        gentoo_art(),
        default_art(),
    ]
}

/// The brand colours of each built-in entry, in catalog order.
pub open spec fn builtin_colors() -> Seq<Seq<Seq<char>>> {
    seq![
        seq!["#1793D1"@],
        seq!["#E95420"@, "#772953"@],
        seq!["#D70A53"@],
        seq!["#0DB7ED"@, "#294172"@],
        seq!["#35BF5C"@],
        seq!["#73BA25"@],
        seq!["#932279"@],
        seq!["#0D597F"@],
        seq!["#54487A"@],
        seq!["#000000"@],
    ]
}

proof fn lemma_hex_color_chars(s: Seq<char>)
    requires
        s.len() == 7,
        s[0] == '#',
        is_hex_digit(s[1]),
        is_hex_digit(s[2]),
        is_hex_digit(s[3]),
        is_hex_digit(s[4]),
        is_hex_digit(s[5]),
        is_hex_digit(s[6]),
    ensures
        parse_hex_color(s).is_some(),
{
    assert forall|i: int| 1 <= i < 7 implies is_hex_digit(#[trigger] s[i]) by {
        if i == 1 {
        } else if i == 2 {
        } else if i == 3 {
        } else if i == 4 {
        } else if i == 5 {
        } else {
        }
    }
}

/// Every built-in entry has art and at least one brand colour, and every
/// brand colour is a well-formed `#RRGGBB`.
pub proof fn lemma_builtin_tables_valid()
    ensures
        builtin_art().len() == builtin_ids().len(),
        builtin_colors().len() == builtin_ids().len(),
        forall|i: int| 0 <= i < builtin_ids().len() ==> #[trigger] builtin_art()[i].len() > 0,
        forall|i: int| 0 <= i < builtin_ids().len() ==> #[trigger] builtin_colors()[i].len() > 0,
        forall|i: int, j: int|
            0 <= i < builtin_ids().len() && 0 <= j < builtin_colors()[i].len() ==> parse_hex_color(
                #[trigger] builtin_colors()[i][j],
            ).is_some(),
{
    reveal_strlit("#000000");
    reveal_strlit("#0D597F");
    reveal_strlit("#0DB7ED");
    reveal_strlit("#1793D1");
    reveal_strlit("#294172");
    reveal_strlit("#35BF5C");
    reveal_strlit("#54487A");
    reveal_strlit("#73BA25");
    reveal_strlit("#772953");
    reveal_strlit("#932279");
    reveal_strlit("#D70A53");
    reveal_strlit("#E95420");
    let c = builtin_colors();
    assert forall|i: int, j: int|
        0 <= i < builtin_ids().len() && 0 <= j < c[i].len() implies parse_hex_color(
            #[trigger] c[i][j],
        ).is_some() by {
        reveal_strlit("#000000");
        lemma_hex_color_chars("#000000"@);
        reveal_strlit("#0D597F");
        lemma_hex_color_chars("#0D597F"@);
        reveal_strlit("#0DB7ED");
        lemma_hex_color_chars("#0DB7ED"@);
        reveal_strlit("#1793D1");
        lemma_hex_color_chars("#1793D1"@);
        reveal_strlit("#294172");
        lemma_hex_color_chars("#294172"@);
        reveal_strlit("#35BF5C");
        lemma_hex_color_chars("#35BF5C"@);
        reveal_strlit("#54487A");
        lemma_hex_color_chars("#54487A"@);
        reveal_strlit("#73BA25");
        lemma_hex_color_chars("#73BA25"@);
        reveal_strlit("#772953");
        lemma_hex_color_chars("#772953"@);
        reveal_strlit("#932279");
        lemma_hex_color_chars("#932279"@);
        reveal_strlit("#D70A53");
        lemma_hex_color_chars("#D70A53"@);
        reveal_strlit("#E95420");
        lemma_hex_color_chars("#E95420"@);
    }
}

/// No identifier of the built-in catalog is registered twice.
pub proof fn lemma_builtin_ids_distinct()
    ensures
        builtin_ids().no_duplicates(),
        builtin_ids().contains(default_id()),
{
    reveal_strlit("arch");
    reveal_strlit("ubuntu");
    reveal_strlit("debian");
    reveal_strlit("fedora");
    reveal_strlit("manjaro");
    reveal_strlit("opensuse");
    reveal_strlit("centos");
    reveal_strlit("alpine");
    reveal_strlit("gentoo");
    reveal_strlit("default");
    assert("arch"@.len() == 4 && "arch"@[0] == 'a');
    assert("ubuntu"@.len() == 6 && "ubuntu"@[0] == 'u');
    assert("debian"@.len() == 6 && "debian"@[0] == 'd');
    assert("fedora"@.len() == 6 && "fedora"@[0] == 'f');
    assert("manjaro"@.len() == 7 && "manjaro"@[0] == 'm');
    assert("opensuse"@.len() == 8 && "opensuse"@[0] == 'o');
    assert("centos"@.len() == 6 && "centos"@[0] == 'c');
    assert("alpine"@.len() == 6 && "alpine"@[0] == 'a');
    assert("gentoo"@.len() == 6 && "gentoo"@[0] == 'g');
    assert("default"@.len() == 7 && "default"@[0] == 'd');
    let s = builtin_ids();
    assert forall|i: int, j: int| 0 <= i < s.len() && 0 <= j < s.len() && i != j implies s[i]
        != s[j] by {
        assert(s[i].len() != s[j].len() || s[i][0] != s[j][0]);
    }
    assert(s[9] == default_id());
}


/// `s` without its leading `"` characters.
pub open spec fn strip_leading_quotes(s: Seq<char>) -> Seq<char>
    decreases s.len(),
{
    if s.len() > 0 && s[0] == '"' {
        strip_leading_quotes(s.drop_first())
    } else {
        s
    }
}

/// `s` without its trailing `"` characters.
pub open spec fn strip_trailing_quotes(s: Seq<char>) -> Seq<char>
    decreases s.len(),
{
    if s.len() > 0 && s.last() == '"' {
        strip_trailing_quotes(s.drop_last())
    } else {
        s
    }
}

/// `s` without the `"` characters at either end.
pub open spec fn unquoted(s: Seq<char>) -> Seq<char> {
    strip_trailing_quotes(strip_leading_quotes(s))
}

/// The distribution identifier of an os-release file: the value of its
/// first `ID=` line, unquoted and in lowercase.
pub open spec fn os_release_id(content: Seq<char>) -> Option<Seq<char>> {
    match first_line_starting(segments_of(content), "ID="@) {
        Some(l) => Some(lowercase_of(unquoted(l.skip(3)))),
        None => None,
    }
}

/// The detected distribution: the os-release identifier where there is
/// one, else the first distribution whose marker file exists, else
/// `default`.
pub open spec fn detected_distro(
    os_release: Option<Seq<char>>,
    arch_release: bool,
    debian_version: bool,
    fedora_release: bool,
    redhat_release: bool,
) -> Seq<char> {
    let from_file = match os_release {
        Some(c) => os_release_id(c),
        None => None,
    };
    match from_file {
        Some(id) => id,
        None => if arch_release {
            "arch"@
        } else if debian_version {
            "debian"@
        } else if fedora_release {
            "fedora"@
        } else if redhat_release {
            "centos"@
        } else {
            default_id()
        },
    }
}

/// `s` without the `"` characters at either end.
pub fn unquote(s: &str) -> (r: String)
    ensures
        r@ == unquoted(s@),
{
    let n = s.unicode_len();
    let mut i: usize = 0;
    assert(s@.skip(0) =~= s@);
    while i < n && s.get_char(i) == '"'
        invariant
            n == s@.len(),
            i <= n,
            strip_leading_quotes(s@) == strip_leading_quotes(s@.skip(i as int)),
        decreases n - i,
    {
        assert(s@.skip(i as int).drop_first() =~= s@.skip(i + 1));
        i = i + 1;
    }
    assert(strip_leading_quotes(s@.skip(i as int)) == s@.skip(i as int));
    assert(s@.skip(i as int) =~= s@.subrange(i as int, n as int));
    let mut j: usize = n;
    while j > i && s.get_char(j - 1) == '"'
        invariant
            n == s@.len(),
            i <= j <= n,
            strip_trailing_quotes(s@.subrange(i as int, n as int)) == strip_trailing_quotes(
                s@.subrange(i as int, j as int),
            ),
        decreases j,
    {
        assert(s@.subrange(i as int, j as int).drop_last() =~= s@.subrange(i as int, j - 1));
        j = j - 1;
    }
    let r = String::from_str(s.substring_char(i, j));
    assert(strip_trailing_quotes(s@.subrange(i as int, j as int)) == s@.subrange(i as int, j as int));
    r
}

/// The distribution identifier of os-release content, if it has an `ID=`
/// line.
pub fn os_release_distro(content: &str) -> (r: Option<String>)
    ensures
        match r {
            Some(s) => Some(s@),
            None => None::<Seq<char>>,
        } == os_release_id(content@),
{
    proof {
        reveal_strlit("ID=");
    }
    match find_line(content, "ID=", true) {
        Some(line) => {
            let s = line.as_str();
            let n = s.unicode_len();
            let value = s.substring_char(3, n);
            assert(value@ =~= line@.skip(3));
            let bare = unquote(value);
            Some(to_lowercase(bare.as_str()))
        },
        None => None,
    }
}

/// A read-only registry of logos keyed by distribution identifier.
pub struct LogoManager {
    ids: Vec<String>,
    logos: Vec<DistroLogo>,
}

impl LogoManager {
    /// The registered identifiers, in order.
    pub closed spec fn ids(&self) -> Seq<Seq<char>> {
        lines_of(self.ids@)
    }

    /// The registered logos, at the positions of their identifiers.
    pub closed spec fn entries(&self) -> Seq<DistroLogo> {
        self.logos@
    }

    /// One logo per identifier, no identifier twice, and a `default` entry.
    pub open spec fn wf(&self) -> bool {
        &&& self.entries().len() == self.ids().len()
        &&& self.ids().no_duplicates()
        &&& self.ids().contains(default_id())
    }

    /// The logo registered under `id`, which must be registered.
    pub open spec fn entry_for(&self, id: Seq<char>) -> DistroLogo {
        self.entries()[choose|i: int| 0 <= i < self.ids().len() && self.ids()[i] == id]
    }

    /// The catalog with every built-in logo.
    pub fn new() -> (r: Self)
        ensures
            r.wf(),
            r.ids() == builtin_ids(),
            forall|i: int| 0 <= i < r.ids().len() ==> #[trigger] r.entries()[i].name@ == builtin_names()[i],
            forall|i: int|
                0 <= i < r.ids().len() ==> lines_of(#[trigger] r.entries()[i].ascii_art@) == builtin_art()[i],
            forall|i: int|
                0 <= i < r.ids().len() ==> lines_of(#[trigger] r.entries()[i].colors@) == builtin_colors()[i],
            forall|i: int| 0 <= i < r.ids().len() ==> #[trigger] r.entries()[i].ascii_art@.len() > 0,
            forall|i: int| 0 <= i < r.ids().len() ==> #[trigger] r.entries()[i].colors@.len() > 0,
            forall|i: int, j: int|
                0 <= i < r.ids().len() && 0 <= j < r.entries()[i].colors@.len() ==> parse_hex_color(
                    #[trigger] r.entries()[i].colors@[j]@,
                ).is_some(),
    {
        let mut manager = LogoManager { ids: Vec::new(), logos: Vec::new() };
        manager.load_builtin_logos();
        proof {
            lemma_builtin_ids_distinct();
            lemma_builtin_tables_valid();
            assert forall|i: int| 0 <= i < manager.ids().len() implies #[trigger] manager.entries()[i].ascii_art@.len() > 0 by {
                assert(lines_of(manager.entries()[i].ascii_art@).len() == builtin_art()[i].len());
            }
            assert forall|i: int| 0 <= i < manager.ids().len() implies #[trigger] manager.entries()[i].colors@.len() > 0 by {
                assert(lines_of(manager.entries()[i].colors@).len() == builtin_colors()[i].len());
            }
            assert forall|i: int, j: int|
                0 <= i < manager.ids().len() && 0 <= j < manager.entries()[i].colors@.len() implies parse_hex_color(
                    #[trigger] manager.entries()[i].colors@[j]@,
                ).is_some() by {
                assert(lines_of(manager.entries()[i].colors@)[j] == manager.entries()[i].colors@[j]@);
                assert(builtin_colors()[i][j] == manager.entries()[i].colors@[j]@);
            }
        }
        manager
    }

    fn add(&mut self, id: &str, logo: DistroLogo)
        requires
            old(self).entries().len() == old(self).ids().len(),
        ensures
            final(self).ids() == old(self).ids().push(id@),
            final(self).entries() == old(self).entries().push(logo),
    {
        let ghost before = self.ids@;
        let key = String::from_str(id);
        self.ids.push(key);
        proof {
            crate::text::lemma_lines_of_push(before, key);
        }
        self.logos.push(logo);
    }

    fn load_builtin_logos(&mut self)
        requires
            old(self).ids().len() == 0,
            old(self).entries().len() == 0,
        ensures
            final(self).ids() =~= builtin_ids(),
            final(self).entries().len() == builtin_ids().len(),
            forall|i: int| 0 <= i < builtin_ids().len() ==> #[trigger] final(self).entries()[i].name@ == builtin_names()[i],
            forall|i: int|
                0 <= i < builtin_ids().len() ==> lines_of(#[trigger] final(self).entries()[i].ascii_art@) == builtin_art()[i],
            forall|i: int|
                0 <= i < builtin_ids().len() ==> lines_of(#[trigger] final(self).entries()[i].colors@) == builtin_colors()[i],
    {
        let art = vec![
            String::from_str("                   -`"),
            String::from_str("                  .o+`"),
            String::from_str("                 `ooo/"),
            String::from_str("                `+oooo:"),
            String::from_str("               `+oooooo:"),
            String::from_str("               -+oooooo+:"),
            String::from_str("             `/:-:++oooo+:"),
            String::from_str("            `/++++/+++++++:"),
            String::from_str("           `/++++++++++++++:"),
            String::from_str("          `/+++ooooooooooooo/`"),
            String::from_str("         ./ooosssso++osssssso+`"),
            String::from_str("        .oossssso-````/ossssss+`"),
            String::from_str("       -osssssso.      :ssssssso."),
            String::from_str("      :osssssss/        osssso+++."),
            String::from_str("     /ossssssss/        +ssssooo/-"),
            String::from_str("   `/ossssso+/:-        -:/+osssso+-"),
            String::from_str("  `+sso+:-`                 `.-/+oso:"),
            String::from_str(" `++:.                           `-/+/"),
            String::from_str(" .`                                 `/"),
        ];
        let colors = vec![String::from_str("#1793D1")];
        proof {
            assert(lines_of(art@) =~= arch_art());
            assert(lines_of(colors@) =~= seq!["#1793D1"@]);
        }
        self.add("arch", DistroLogo::new(String::from_str("Arch Linux"), art, colors));
        let art = vec![
            String::from_str("                          ./+o+-"),
            String::from_str("                  yyyyy- -yyyyyy+"),
            String::from_str("               ://+//////-yyyyyyo"),
            String::from_str("           .++ .:/++++++/-.+sss/`"),
            String::from_str("         .:++o:  /++++++++/:--:/-"),
            String::from_str("        o:+o+:++.`..```.-/oo+++++/"),
            String::from_str("       .:+o:+o/.          `+sssoo+/"),
            String::from_str("  .++/+:+oo+o:`             /sssooo."),
            String::from_str(" /+++//+:`oo+o               /::--:."),
            String::from_str(r" \+/+o+++`o++o               ++////."),
            String::from_str("  .++.o+++oo+:`             /dddhhh."),
            String::from_str("       .+.o+oo:.          `oddhhhh+"),
            String::from_str(r"        \+.++o+o``-````.:ohdhhhhh+"),
            String::from_str("         `:o+++ `ohhhhhhhhyo++os:"),
            String::from_str("           .o:`.syhhhhhhh/.oo++o`"),
            String::from_str("               /osyyyyyyo++ooo+++/"),
            String::from_str(r"                   ````` +oo+++o\:"),
            String::from_str("                          `oo++."),
        ];
        let colors = vec![String::from_str("#E95420"), String::from_str("#772953")];
        proof {
            assert(lines_of(art@) =~= ubuntu_art());
            assert(lines_of(colors@) =~= seq!["#E95420"@, "#772953"@]);
        }
        self.add("ubuntu", DistroLogo::new(String::from_str("Ubuntu"), art, colors));
        let art = vec![
            String::from_str("  _____"),
            String::from_str(" /  ___|"),
            String::from_str("|  |  __"),
            String::from_str("|  | |_ |"),
            String::from_str("|  |__| |"),
            String::from_str(r" \_____|"),
        ];
        let colors = vec![String::from_str("#D70A53")];
        proof {
            assert(lines_of(art@) =~= debian_art());
            assert(lines_of(colors@) =~= seq!["#D70A53"@]);
        }
        self.add("debian", DistroLogo::new(String::from_str("Debian"), art, colors));
        let art = vec![
            String::from_str("             .',;::::;,'."),
            String::from_str("         .';:cccccccccccc:;:."),
            String::from_str("      .;cccccccccccccccccccccc;."),
            String::from_str("    .:cccccccccccccccccccccccccc:."),
            String::from_str("  .;ccccccccccccc;.:dddl:.;ccccccc;."),
            String::from_str(" .:ccccccccccccc;OWMKOOXMWd;ccccccc:."),
            String::from_str(".:ccccccccccccc;KMMc;cc;xMMc:ccccccc:."),
            String::from_str(",cccccccccccccc;MMM.;cc;;WW::cccccccc,"),
            String::from_str(":cccccccccccccc;MMM.;cccccccccccccccc:"),
            String::from_str(":ccccccc;oxOOOo;MMM0OOkxo;cccccccccccc:"),
            String::from_str(",cccccccccccccc;MMM.;cccccccccccccccc,"),
            String::from_str(".:cccccccccccccc;MMMc.;ccccccccccccccc:."),
            String::from_str(" .:cccccccccccccc;ddddl:.;cccccccccccc:."),
            String::from_str("  .;cccccccccccccccccccccccccccccc;."),
            String::from_str("    .:cccccccccccccccccccccccccc:."),
            String::from_str("      .;cccccccccccccccccccccc;."),
            String::from_str("         .';:cccccccccccc:;:."),
            String::from_str("             .',;::::;,'."),
        ];
        let colors = vec![String::from_str("#0DB7ED"), String::from_str("#294172")];
        proof {
            assert(lines_of(art@) =~= fedora_art());
            assert(lines_of(colors@) =~= seq!["#0DB7ED"@, "#294172"@]);
        }
        self.add("fedora", DistroLogo::new(String::from_str("Fedora"), art, colors));
        let art = vec![
            String::from_str("██████████████████  ████████"),
            String::from_str("██████████████████  ████████"),
            String::from_str("██████████████████  ████████"),
            String::from_str("██████████████████  ████████"),
            String::from_str("████████            ████████"),
            String::from_str("████████  ████████  ████████"),
            String::from_str("████████  ████████  ████████"),
            String::from_str("████████  ████████  ████████"),
            String::from_str("████████  ████████  ████████"),
        ];
        let colors = vec![String::from_str("#35BF5C")];
        proof {
            assert(lines_of(art@) =~= manjaro_art());
            assert(lines_of(colors@) =~= seq!["#35BF5C"@]);
        }
        self.add("manjaro", DistroLogo::new(String::from_str("Manjaro"), art, colors));
        let art = vec![
            String::from_str("  ______"),
            String::from_str(" / ____/"),
            String::from_str("/ /     "),
            String::from_str("/ /___  "),
            String::from_str("\\____/  "),
        ];
        let colors = vec![String::from_str("#73BA25")];
        proof {
            assert(lines_of(art@) =~= opensuse_art());
            assert(lines_of(colors@) =~= seq!["#73BA25"@]);
        }
        self.add("opensuse", DistroLogo::new(String::from_str("openSUSE"), art, colors));
        let art = vec![
            String::from_str(" ____"),
            String::from_str("/ ___|"),
            String::from_str("\\___ \\"),
            String::from_str(" ___) |"),
            String::from_str("|____/"),
        ];
        let colors = vec![String::from_str("#932279")];
        proof {
            assert(lines_of(art@) =~= centos_art());
            assert(lines_of(colors@) =~= seq!["#932279"@]);
        }
        self.add("centos", DistroLogo::new(String::from_str("CentOS"), art, colors));
        let art = vec![
            String::from_str("   /\\"),
            String::from_str("  /  \\"),
            String::from_str(" /    \\"),
            String::from_str("/______\\"),
        ];
        let colors = vec![String::from_str("#0D597F")];
        proof {
            assert(lines_of(art@) =~= alpine_art());
            assert(lines_of(colors@) =~= seq!["#0D597F"@]);
        }
        self.add("alpine", DistroLogo::new(String::from_str("Alpine"), art, colors));
        let art = vec![
            String::from_str(" _-----_"),
            String::from_str("(       \\"),
            String::from_str("\\    0   \\"),
            String::from_str(" \\        )"),
            String::from_str(" /      _/"),
            String::from_str("(     _-"),
            String::from_str("\\____-"),
        ];
        let colors = vec![String::from_str("#54487A")];
        proof {
            assert(lines_of(art@) =~= gentoo_art());
            assert(lines_of(colors@) =~= seq!["#54487A"@]);
        }
        self.add("gentoo", DistroLogo::new(String::from_str("Gentoo"), art, colors));
        let art = vec![
            String::from_str("    __  ___"),
            String::from_str("   /  |/  /"),
            String::from_str("  / /|_/ /"),
            String::from_str(" / /  / /"),
            String::from_str("/_/  /_/"),
        ];
        let colors = vec![String::from_str("#000000")];
        proof {
            assert(lines_of(art@) =~= default_art());
            assert(lines_of(colors@) =~= seq!["#000000"@]);
        }
        self.add("default", DistroLogo::new(String::from_str("Linux"), art, colors));
        proof {
            reveal_strlit("arch");
            reveal_strlit("ubuntu");
            reveal_strlit("debian");
            reveal_strlit("fedora");
            reveal_strlit("manjaro");
            reveal_strlit("opensuse");
            reveal_strlit("centos");
            reveal_strlit("alpine");
            reveal_strlit("gentoo");
            reveal_strlit("default");
            reveal_strlit("Arch Linux");
            reveal_strlit("Ubuntu");
            reveal_strlit("Debian");
            reveal_strlit("Fedora");
            reveal_strlit("Manjaro");
            reveal_strlit("openSUSE");
            reveal_strlit("CentOS");
            reveal_strlit("Alpine");
            reveal_strlit("Gentoo");
            reveal_strlit("Linux");
        }
    }

    /// The distribution detected from the content of `/etc/os-release`,
    /// where it could be read, and from which marker files exist
    /// (`/etc/arch-release`, `/etc/debian_version`, `/etc/fedora-release`,
    /// `/etc/redhat-release`).
    pub fn detect_distro(
        os_release: Option<&str>,
        arch_release: bool,
        debian_version: bool,
        fedora_release: bool,
        redhat_release: bool,
    ) -> (r: String)
        ensures
            r@ == detected_distro(
                match os_release {
                    Some(c) => Some(c@),
                    None => None,
                },
                arch_release,
                debian_version,
                fedora_release,
                redhat_release,
            ),
    {
        let from_file = match os_release {
            Some(c) => os_release_distro(c),
            None => None,
        };
        match from_file {
            Some(id) => id,
            None => {
                proof {
                    reveal_strlit("default");
                }
                if arch_release {
                    String::from_str("arch")
                } else if debian_version {
                    String::from_str("debian")
                } else if fedora_release {
                    String::from_str("fedora")
                } else if redhat_release {
                    String::from_str("centos")
                } else {
                    String::from_str("default")
                }
            },
        }
    }

    /// The logo registered under `distro`, if any.
    pub fn get_logo(&self, distro: &str) -> (r: Option<&DistroLogo>)
        requires
            self.wf(),
        ensures
            r.is_some() == self.ids().contains(distro@),
            r.is_some() ==> *r.unwrap() == self.entry_for(distro@),
    {
        let mut i: usize = 0;
        while i < self.ids.len()
            invariant
                self.wf(),
                i <= self.ids@.len(),
                forall|j: int| 0 <= j < i ==> self.ids()[j] != distro@,
            decreases self.ids@.len() - i,
        {
            if same_text(self.ids[i].as_str(), distro) {
                assert(self.ids()[i as int] == distro@);
                proof {
                    let k = choose|k: int| 0 <= k < self.ids().len() && self.ids()[k] == distro@;
                    assert(k == i as int);
                }
                return Some(&self.logos[i]);
            }
            i = i + 1;
        }
        None
    }

    /// The logo for the detected distribution `detected`, or the `default`
    /// logo where no logo is registered under it.
    pub fn get_detected_logo(&self, detected: &str) -> (r: &DistroLogo)
        requires
            self.wf(),
        ensures
            *r == if self.ids().contains(detected@) {
                self.entry_for(detected@)
            } else {
                self.entry_for(default_id())
            },
    {
        match self.get_logo(detected) {
            Some(l) => l,
            None => {
                proof {
                    reveal_strlit("default");
                }
                let d = self.get_logo("default");
                d.unwrap()
            },
        }
    }

    /// The registered identifiers.
    pub fn list_available_logos(&self) -> (r: Vec<&String>)
        ensures
            r@.len() == self.ids().len(),
            forall|i: int| 0 <= i < r@.len() ==> #[trigger] r@[i]@ == self.ids()[i],
    {
        let mut r: Vec<&String> = Vec::new();
        let mut i: usize = 0;
        while i < self.ids.len()
            invariant
                i <= self.ids@.len(),
                r@.len() == i,
                forall|j: int| 0 <= j < i ==> #[trigger] r@[j]@ == self.ids()[j],
            decreases self.ids@.len() - i,
        {
            r.push(&self.ids[i]);
            i = i + 1;
        }
        r
    }
}

} // verus!
