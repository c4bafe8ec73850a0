use piko::layout::{compose, frame_bottom_line, frame_rows, frame_top_line, LayoutOptions, LogoPosition};
use piko::text::{make_spaces, visible_width_of};

fn lines(v: &[&str]) -> Vec<String> {
    v.iter().map(|s| s.to_string()).collect()
}

fn opts(position: LogoPosition, show_border: bool, compact: bool) -> LayoutOptions {
    LayoutOptions { position, show_border, compact }
}

#[test]
fn row_count_is_taller_block() {
    let logo = lines(&["aa", "bb", "cc"]);
    let info = lines(&["1", "2", "3", "4", "5"]);
    let out = compose(&logo, &info, opts(LogoPosition::Left, false, false));
    assert_eq!(out.len(), 5);
    let out = compose(&info, &logo, opts(LogoPosition::Left, false, false));
    assert_eq!(out.len(), 5);
}

#[test]
fn row_count_with_border_adds_two() {
    let logo = lines(&["aa", "bb", "cc"]);
    let info = lines(&["1", "2", "3", "4", "5"]);
    let out = compose(&logo, &info, opts(LogoPosition::Right, true, true));
    assert_eq!(out.len(), 7);
    assert_eq!(out[0], frame_top_line());
    assert_eq!(out[6], frame_bottom_line());
}

#[test]
fn left_alignment_pads_to_widest_logo_row() {
    let wide = "x".repeat(20);
    let short = "y".repeat(15);
    let logo = vec![wide.clone(), short.clone()];
    let info = lines(&["first", "second", "third"]);
    let out = compose(&logo, &info, opts(LogoPosition::Left, false, false));
    assert_eq!(out[0], format!("{}{}first", wide, " ".repeat(4)));
    assert_eq!(out[1], format!("{}{}second", short, " ".repeat(9)));
    assert_eq!(out[2], format!("{}third", " ".repeat(24)));
}

#[test]
fn left_alignment_compact_padding() {
    let logo = lines(&["abcd", "ab"]);
    let info = lines(&["i0", "i1"]);
    let out = compose(&logo, &info, opts(LogoPosition::Left, false, true));
    assert_eq!(out, lines(&["abcd  i0", "ab    i1"]));
}

#[test]
fn left_logo_taller_than_info() {
    let logo = lines(&["abc", "de", "f"]);
    let info = lines(&["i0"]);
    let out = compose(&logo, &info, opts(LogoPosition::Left, false, false));
    assert_eq!(out, lines(&["abc    i0", "de", "f"]));
}

#[test]
fn top_and_bottom_lay_out_as_left() {
    let logo = lines(&["abc", "d"]);
    let info = lines(&["i0", "i1", "i2"]);
    let left = compose(&logo, &info, opts(LogoPosition::Left, false, false));
    let top = compose(&logo, &info, opts(LogoPosition::Top, false, false));
    let bottom = compose(&logo, &info, opts(LogoPosition::Bottom, false, false));
    assert_eq!(left, top);
    assert_eq!(left, bottom);
}

#[test]
fn right_position_puts_info_first() {
    let logo = lines(&["L0", "L1", "L2"]);
    let info = lines(&["info-a", "b"]);
    let out = compose(&logo, &info, opts(LogoPosition::Right, false, false));
    assert_eq!(out, lines(&["info-a    L0", "b    L1", "          L2"]));
}

#[test]
fn right_position_info_taller() {
    let logo = lines(&["L0"]);
    let info = lines(&["a", "b"]);
    let out = compose(&logo, &info, opts(LogoPosition::Right, false, true));
    assert_eq!(out, lines(&["a  L0", "b"]));
}

#[test]
fn empty_logo_keeps_info_column() {
    let logo: Vec<String> = Vec::new();
    let info = lines(&["a", "b"]);
    let out = compose(&logo, &info, opts(LogoPosition::Left, false, false));
    assert_eq!(out, lines(&["    a", "    b"]));
}

#[test]
fn both_blocks_empty() {
    let empty: Vec<String> = Vec::new();
    assert!(compose(&empty, &empty, opts(LogoPosition::Left, false, false)).is_empty());
    assert_eq!(compose(&empty, &empty, opts(LogoPosition::Left, true, false)).len(), 2);
}

#[test]
fn compose_is_idempotent() {
    let logo = lines(&["  /\\", " /  \\", "/____\\"]);
    let info = lines(&["\u{1b}[38;2;1;2;3mOS\u{1b}[0m: x", "y", "z", "w"]);
    for position in [LogoPosition::Left, LogoPosition::Right] {
        let o = opts(position, true, false);
        assert_eq!(compose(&logo, &info, o), compose(&logo, &info, o));
    }
}

#[test]
fn frame_lines_have_fixed_width() {
    let top = frame_top_line();
    let bottom = frame_bottom_line();
    assert_eq!(top, format!("┌{}┐", "─".repeat(61)));
    assert_eq!(bottom, format!("└{}┘", "─".repeat(61)));
}

#[test]
fn frame_rows_without_border_is_identity() {
    let rows = lines(&["a", "b"]);
    assert_eq!(frame_rows(rows.clone(), false), rows);
    let framed = frame_rows(rows.clone(), true);
    assert_eq!(framed.len(), 4);
    assert_eq!(framed[1..3].to_vec(), rows);
}

#[test]
fn position_names() {
    assert_eq!(LogoPosition::from_name("right"), LogoPosition::Right);
    assert_eq!(LogoPosition::from_name("top"), LogoPosition::Top);
    assert_eq!(LogoPosition::from_name("bottom"), LogoPosition::Bottom);
    assert_eq!(LogoPosition::from_name("left"), LogoPosition::Left);
    assert_eq!(LogoPosition::from_name("diagonal"), LogoPosition::Left);
}

#[test]
fn spaces_helper() {
    assert_eq!(make_spaces(0), "");
    assert_eq!(make_spaces(3), "   ");
}

#[test]
fn right_gap_counts_visible_width() {
    let logo = lines(&["L0", "L1"]);
    let info = vec!["\u{1b}[31mx\u{1b}[0m".to_string()];
    let out = compose(&logo, &info, opts(LogoPosition::Right, false, false));
    assert_eq!(out[0], "\u{1b}[31mx\u{1b}[0m    L0");
    assert_eq!(out[1], format!("{}L1", " ".repeat(5)));
}

#[test]
fn right_gap_with_truecolor_lines() {
    let logo = lines(&["A", "B", "C"]);
    let info = vec![
        "* \u{1b}[38;2;23;147;209mOS\u{1b}[0m: \u{1b}[38;2;23;147;209mLinux\u{1b}[0m".to_string(),
        "plain".to_string(),
    ];
    let out = compose(&logo, &info, opts(LogoPosition::Right, false, true));
    assert_eq!(out[2], format!("{}C", " ".repeat(11 + 2)));
}

#[test]
fn visible_width_skips_colour_sequences() {
    assert_eq!(visible_width_of("abc"), 3);
    assert_eq!(visible_width_of("\u{1b}[38;2;1;2;3mab\u{1b}[0m"), 2);
    assert_eq!(visible_width_of(""), 0);
    assert_eq!(visible_width_of("█▌"), 2);
}
