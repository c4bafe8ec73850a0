use piko::distro_logo::{os_release_distro, unquote, DistroLogo, LogoManager};
use piko::logo_art::{get_logo_art, transform_art, LogoSize, LogoStyle};

fn ten_rows() -> Vec<String> {
    (0..10).map(|i| format!("row{}", i)).collect()
}

#[test]
fn small_keeps_every_other_row() {
    let art = ten_rows();
    let out = transform_art(&art, LogoSize::Small, LogoStyle::Ascii);
    assert_eq!(out, vec!["row0", "row2", "row4", "row6", "row8"]);
}

#[test]
fn small_on_odd_height() {
    let art: Vec<String> = vec!["a".into(), "b".into(), "c".into()];
    assert_eq!(transform_art(&art, LogoSize::Small, LogoStyle::Unicode), vec!["a", "c"]);
}

#[test]
fn medium_and_large_keep_all_rows() {
    let art = ten_rows();
    assert_eq!(transform_art(&art, LogoSize::Medium, LogoStyle::Ascii), art);
    assert_eq!(transform_art(&art, LogoSize::Large, LogoStyle::Unicode), art);
}

#[test]
fn minimal_truncates_to_three_rows() {
    let art = ten_rows();
    assert_eq!(transform_art(&art, LogoSize::Medium, LogoStyle::Minimal), vec!["row0", "row1", "row2"]);
    let two: Vec<String> = vec!["a".into(), "b".into()];
    assert_eq!(transform_art(&two, LogoSize::Large, LogoStyle::Minimal), two);
}

#[test]
fn small_then_minimal() {
    let art = ten_rows();
    assert_eq!(transform_art(&art, LogoSize::Small, LogoStyle::Minimal), vec!["row0", "row2", "row4"]);
}

#[test]
fn empty_art_stays_empty() {
    let art: Vec<String> = Vec::new();
    assert!(transform_art(&art, LogoSize::Small, LogoStyle::Minimal).is_empty());
}

#[test]
fn size_and_style_names() {
    assert_eq!(LogoSize::from_name("small"), LogoSize::Small);
    assert_eq!(LogoSize::from_name("large"), LogoSize::Large);
    assert_eq!(LogoSize::from_name("huge"), LogoSize::Medium);
    assert_eq!(LogoStyle::from_name("minimal"), LogoStyle::Minimal);
    assert_eq!(LogoStyle::from_name("unicode"), LogoStyle::Unicode);
    assert_eq!(LogoStyle::from_name("fancy"), LogoStyle::Ascii);
}

#[test]
fn logo_art_of_entry() {
    let logo = DistroLogo::new("X".to_string(), ten_rows(), vec!["#000000".to_string()]);
    assert_eq!(get_logo_art(&logo, LogoSize::Small, LogoStyle::Ascii).len(), 5);
}

#[test]
fn unknown_distro_has_no_logo() {
    let manager = LogoManager::new();
    assert!(manager.get_logo("nonexistent-distro").is_none());
}

#[test]
fn unknown_distro_falls_back_to_default() {
    let manager = LogoManager::new();
    let logo = manager.get_detected_logo("nonexistent-distro");
    assert_eq!(logo.name, "Linux");
    assert_eq!(logo.ascii_art.len(), 5);
    assert_eq!(logo.ascii_art[0], "    __  ___");
}

#[test]
fn known_distro_is_found() {
    let manager = LogoManager::new();
    let arch = manager.get_logo("arch").unwrap();
    assert_eq!(arch.name, "Arch Linux");
    assert_eq!(arch.colors, vec!["#1793D1"]);
    assert_eq!(arch.ascii_art.len(), 19);
    assert_eq!(manager.get_detected_logo("ubuntu").name, "Ubuntu");
}

#[test]
fn catalog_lists_every_id() {
    let manager = LogoManager::new();
    let mut ids: Vec<String> = manager.list_available_logos().into_iter().cloned().collect();
    ids.sort();
    assert_eq!(
        ids,
        vec!["alpine", "arch", "centos", "debian", "default", "fedora", "gentoo", "manjaro", "opensuse", "ubuntu"]
    );
}

#[test]
fn os_release_id_is_unquoted_and_lowercased() {
    let content = "NAME=\"Arch Linux\"\nPRETTY_NAME=\"Arch\"\nID=\"Arch\"\nVERSION_ID=1\n";
    assert_eq!(os_release_distro(content), Some("arch".to_string()));
    assert_eq!(os_release_distro("ID=fedora"), Some("fedora".to_string()));
    assert_eq!(os_release_distro("NAME=x\nVERSION_ID=3"), None);
}

#[test]
fn unquote_strips_both_ends() {
    assert_eq!(unquote("\"\"abc\"\""), "abc");
    assert_eq!(unquote("\"\""), "");
    assert_eq!(unquote("a\"b"), "a\"b");
}

#[test]
fn detect_prefers_os_release_then_markers() {
    assert_eq!(LogoManager::detect_distro(Some("ID=debian\n"), true, false, false, false), "debian");
    assert_eq!(LogoManager::detect_distro(Some("NAME=x"), true, true, false, false), "arch");
    assert_eq!(LogoManager::detect_distro(None, false, true, true, false), "debian");
    assert_eq!(LogoManager::detect_distro(None, false, false, true, true), "fedora");
    assert_eq!(LogoManager::detect_distro(None, false, false, false, true), "centos");
    assert_eq!(LogoManager::detect_distro(None, false, false, false, false), "default");
}

#[test]
fn catalog_entries_have_art_and_colours() {
    let manager = LogoManager::new();
    for id in manager.list_available_logos() {
        let logo = manager.get_logo(id).unwrap();
        assert!(!logo.ascii_art.is_empty());
        assert!(!logo.colors.is_empty());
        for c in &logo.colors {
            assert!(piko::color::hex_to_rgb(c).is_some());
        }
    }
    let default = manager.get_logo("default").unwrap();
    assert_eq!(default.ascii_art, vec!["    __  ___", "   /  |/  /", "  / /|_/ /", " / /  / /", "/_/  /_/"]);
    assert_eq!(default.colors, vec!["#000000"]);
    let ubuntu = manager.get_logo("ubuntu").unwrap();
    assert_eq!(ubuntu.ascii_art.len(), 18);
    assert_eq!(ubuntu.colors, vec!["#E95420", "#772953"]);
}

#[test]
fn os_release_with_crlf() {
    assert_eq!(os_release_distro("NAME=x\r\nID=Fedora\r\n"), Some("fedora".to_string()));
}
