use piko::color::{hex_to_rgb, resolve_color};
use piko::distro_logo::LogoManager;
use piko::format::{format_fact, label_line_text, label_segments, FactEntry};
use piko::output::{
    display_logo_only, display_output, flag_key, flag_key_of_lowered, list_available_logos, lookup,
    select_facts, OutputConfig, RenderSettings,
};
use piko::text::{line_segments, split_segments};

fn plain() {
    colored::control::set_override(false);
}

fn fact(key: &str, value: &str, color: Option<&str>, symbol: Option<&str>) -> FactEntry {
    FactEntry {
        key: key.to_string(),
        value: value.to_string(),
        color: color.map(String::from),
        symbol: symbol.map(String::from),
    }
}

fn pairs(v: &[(&str, &str)]) -> Vec<(String, String)> {
    v.iter().map(|(a, b)| (a.to_string(), b.to_string())).collect()
}

fn settings() -> RenderSettings {
    RenderSettings {
        show_logo: None,
        logo_position: None,
        logo_size: None,
        logo_style: None,
        compact: None,
        border: None,
        info_keys: None,
        colors: Vec::new(),
        symbols: Vec::new(),
        flags: Vec::new(),
    }
}

#[test]
fn hex_colors_resolve() {
    assert_eq!(resolve_color(Some("notacolor")), (255, 255, 255));
    assert_eq!(resolve_color(Some("")), (255, 255, 255));
    assert_eq!(resolve_color(None), (255, 255, 255));
    assert_eq!(resolve_color(Some("#1793D1")), (23, 147, 209));
    assert_eq!(hex_to_rgb("#1793D1"), Some((23, 147, 209)));
    assert_eq!(hex_to_rgb("#abcdef"), Some((171, 205, 239)));
    assert_eq!(hex_to_rgb("#000000"), Some((0, 0, 0)));
}

#[test]
fn malformed_hex_is_rejected() {
    assert_eq!(hex_to_rgb("notacolor"), None);
    assert_eq!(hex_to_rgb(""), None);
    assert_eq!(hex_to_rgb("1793D1"), None);
    assert_eq!(hex_to_rgb("#1793D"), None);
    assert_eq!(hex_to_rgb("#1793D1F"), None);
    assert_eq!(hex_to_rgb("#17G3D1"), None);
    assert_eq!(hex_to_rgb("#+F+F+F"), None);
}

#[test]
fn segments_split_on_newlines() {
    assert_eq!(split_segments("A\nB\nC"), vec!["A", "B", "C"]);
    assert_eq!(split_segments(""), vec![""]);
    assert_eq!(split_segments("A\n"), vec!["A", ""]);
    assert_eq!(split_segments("\n\n"), vec!["", "", ""]);
}

#[test]
fn multi_line_fact_gives_one_line_per_segment() {
    plain();
    let out = format_fact(&fact("Disk", "A\nB\nC", Some("#1793D1"), Some("*")));
    assert_eq!(out, vec!["* Disk: A", "B", "C"]);
}

#[test]
fn single_line_fact_without_symbol() {
    plain();
    let out = format_fact(&fact("OS", "Linux", None, None));
    assert_eq!(out, vec![" OS: Linux"]);
}

#[test]
fn empty_value_gives_one_line() {
    plain();
    let out = format_fact(&fact("Shell", "", Some("bad"), Some(">")));
    assert_eq!(out, vec!["> Shell: "]);
}

#[test]
fn labelling_painted_segments() {
    let painted = vec!["a".to_string(), "b".to_string()];
    assert_eq!(label_segments("#", "K", painted), vec!["# K: a", "b"]);
    assert!(label_segments("#", "K", Vec::new()).is_empty());
    assert_eq!(label_line_text("", "Key", "v"), " Key: v");
}

#[test]
fn flag_keys() {
    assert_eq!(flag_key("CPU Model"), "show_cpu_model");
    assert_eq!(flag_key("Desktop-Environment"), "show_desktop_environment");
    assert_eq!(flag_key_of_lowered("gpu model"), "show_gpu_model");
}

#[test]
fn lookup_takes_first_pair() {
    let p = pairs(&[("a", "1"), ("b", "2"), ("a", "3")]);
    assert_eq!(lookup(&p, "a"), Some(&"1".to_string()));
    assert_eq!(lookup(&p, "b"), Some(&"2".to_string()));
    assert_eq!(lookup(&p, "c"), None);
}

#[test]
fn selection_follows_keys_flags_and_facts() {
    let facts = pairs(&[("OS", "Linux"), ("CPU Model", "x86"), ("Uptime", "1h")]);
    let mut s = settings();
    s.info_keys = Some(vec!["Uptime".into(), "Missing".into(), "CPU Model".into(), "OS".into()]);
    s.flags = vec![("show_cpu_model".to_string(), false)];
    s.colors = pairs(&[("OS", "#FF0000")]);
    s.symbols = pairs(&[("Uptime", "U")]);
    let chosen = select_facts(&facts, &s);
    assert_eq!(chosen.len(), 2);
    assert_eq!(chosen[0].key, "Uptime");
    assert_eq!(chosen[0].value, "1h");
    assert_eq!(chosen[0].symbol, Some("U".to_string()));
    assert_eq!(chosen[0].color, None);
    assert_eq!(chosen[1].key, "OS");
    assert_eq!(chosen[1].color, Some("#FF0000".to_string()));
}

#[test]
fn selection_defaults_to_every_fact() {
    let facts = pairs(&[("B", "2"), ("A", "1")]);
    let chosen = select_facts(&facts, &settings());
    let keys: Vec<&str> = chosen.iter().map(|f| f.key.as_str()).collect();
    assert_eq!(keys, vec!["B", "A"]);
}

#[test]
fn render_without_logo() {
    plain();
    let facts = pairs(&[("OS", "Linux"), ("Disk", "a\nb")]);
    let mut s = settings();
    s.show_logo = Some(false);
    let manager = LogoManager::new();
    let out = display_output(&facts, &s, &manager, "arch");
    assert_eq!(out, vec![" OS: Linux", " Disk: a", "b"]);
    s.border = Some(true);
    let framed = display_output(&facts, &s, &manager, "arch");
    assert_eq!(framed.len(), 5);
    assert_eq!(framed[1], " OS: Linux");
}

#[test]
fn render_with_default_logo() {
    plain();
    let facts = pairs(&[("OS", "Linux")]);
    let mut s = settings();
    s.compact = Some(true);
    let manager = LogoManager::new();
    let out = display_output(&facts, &s, &manager, "nonexistent-distro");
    assert_eq!(out.len(), 5);
    assert_eq!(out[0], "    __  ___   OS: Linux");
    assert_eq!(out[1], "   /  |/  /");
}

#[test]
fn render_right_small() {
    plain();
    let facts = pairs(&[("K", "v")]);
    let mut s = settings();
    s.logo_position = Some("right".into());
    s.logo_size = Some("small".into());
    let manager = LogoManager::new();
    let out = display_output(&facts, &s, &manager, "default");
    assert_eq!(out.len(), 3);
    assert_eq!(out[0], " K: v        __  ___");
    assert_eq!(out[1], format!("{}  / /|_/ /", " ".repeat(9)));
}

#[test]
fn logo_only_and_listing() {
    let manager = LogoManager::new();
    let mut s = settings();
    s.logo_style = Some("minimal".into());
    let art = display_logo_only(&s, &manager, "gentoo");
    assert_eq!(art, vec![" _-----_", "(       \\", "\\    0   \\"]);
    let listing = list_available_logos(&manager);
    assert_eq!(listing.len(), 11);
    assert_eq!(listing[0], "Available logos:");
    assert!(listing.contains(&"  - default".to_string()));
}

#[test]
fn output_config_keeps_layout() {
    assert_eq!(OutputConfig::new("grid".to_string()).layout, "grid");
}

#[test]
fn crlf_ends_a_line() {
    assert_eq!(line_segments("A\r\nB\r\nC"), vec!["A", "B", "C"]);
    assert_eq!(line_segments("A\r"), vec!["A"]);
    assert_eq!(line_segments("\r\r"), vec!["\r"]);
    plain();
    let out = format_fact(&fact("Disk", "x\r\ny", None, Some("*")));
    assert_eq!(out, vec!["* Disk: x", "y"]);
}
