use nana_ui_runtime::color_hex::{format_hex_rgba, hex_bytes, parse_hex_rgba};
use nana_ui_runtime::fixtures::{editor_document, is_wrapped_cell, iteration_budget, padded_cell_text};
use nana_ui_runtime::qr_modules::{parse_qr_module_matrix, qr_modules_from_spec};
use nana_ui_runtime::registry::ComponentTypeId;
use nana_ui_runtime::semantic::SemanticSpec;
use nana_ui_runtime::number_text::parse_usize;
use nana_ui_runtime::template::{apply_calendar_template, calendar_month_label};
use nana_ui_runtime::text_input::{explicit_line_at, explicit_lines, text_highlight_spans};

#[test]
fn hex_bytes_round_trip_opaque_and_alpha() {
    assert_eq!(parse_hex_rgba("#ff8800"), Some([255, 136, 0, 255]));
    assert_eq!(format_hex_rgba([255, 0, 0, 255]), "#ff0000");
    assert_eq!(format_hex_rgba([255, 0, 0, 128]).len(), 9);
    assert!(parse_hex_rgba("nope").is_none());
    let rgba = [18, 52, 86, 120];
    assert_eq!(parse_hex_rgba(&format_hex_rgba(rgba)), Some(rgba));
}

#[test]
fn hex_accepts_trimmed_and_unprefixed_text() {
    assert_eq!(parse_hex_rgba("  0A0b0C  "), Some([10, 11, 12, 255]));
    assert_eq!(parse_hex_rgba("#01020304"), Some([1, 2, 3, 4]));
    assert!(parse_hex_rgba("#12345").is_none());
    assert!(parse_hex_rgba("#12345g").is_none());
    assert_eq!(hex_bytes("00ff", 2), Some(vec![0, 255]));
    assert_eq!(hex_bytes("00ff", 3), None);
    assert_eq!(hex_bytes("éé", 2), None);
}

#[test]
fn calendar_template_replaces_every_occurrence_in_order() {
    let out = apply_calendar_template(
        "{year}年{month}月 {month}",
        &[("{year}", "2026".to_string()), ("{month}", "6".to_string())],
    );
    assert_eq!(out, "2026年6月 6");
    assert_eq!(apply_calendar_template("aaa", &[("aa", "b".to_string())]), "ba");
    assert_eq!(apply_calendar_template("ab", &[("", "-".to_string())]), "-a-b-");
    assert_eq!(
        apply_calendar_template("{a}", &[("{a}", "{b}".to_string()), ("{b}", "c".to_string())]),
        "c"
    );
    assert_eq!(apply_calendar_template("none", &[]), "none");
}

#[test]
fn qr_matrix_reads_digits_tokens_and_width() {
    let (cells, width) = parse_qr_module_matrix(" 1011 ", None).unwrap();
    assert_eq!(cells, vec![true, false, true, true]);
    assert_eq!(width, 2);
    let (cells, width) = parse_qr_module_matrix("[[1, 0],[false; TRUE]]", None).unwrap();
    assert_eq!(cells, vec![true, false, false, true]);
    assert_eq!(width, 2);
    assert!(parse_qr_module_matrix("", None).is_none());
    assert!(parse_qr_module_matrix("101", None).is_none());
    assert!(parse_qr_module_matrix("1,0,maybe,1", None).is_none());
    assert!(parse_qr_module_matrix("[ ]", None).is_none());
    assert!(parse_qr_module_matrix("1011", Some(4)).is_none());
    let (cells, width) = parse_qr_module_matrix("1", Some(1)).unwrap();
    assert_eq!((cells, width), (vec![true], 1));
    assert!(parse_qr_module_matrix("1011", Some(0)).is_none());
    let nine = parse_qr_module_matrix("111000111", None).unwrap();
    assert_eq!(nine.1, 3);
}

#[test]
fn explicit_lines_split_at_line_break_graphemes() {
    assert_eq!(explicit_lines("ab\ncd"), vec![(0, 2, 3), (3, 5, 5)]);
    assert_eq!(explicit_lines("a\r\nb"), vec![(0, 1, 3), (3, 4, 4)]);
    assert_eq!(explicit_lines(""), vec![(0, 0, 0)]);
    assert_eq!(explicit_line_at("ab\ncd", 1), (0, 0, 2));
    assert_eq!(explicit_line_at("ab\ncd", 3), (1, 3, 5));
    assert_eq!(explicit_line_at("ab\ncd", 9), (1, 5, 5));
}

#[test]
fn benchmark_fixtures_are_deterministic() {
    assert!(is_wrapped_cell(3, 0));
    assert!(is_wrapped_cell(43, 0));
    assert!(!is_wrapped_cell(4, 0));
    assert!(!is_wrapped_cell(0, 1));
    assert_eq!(padded_cell_text("", 3, 7, 8), "3:7xxxxx");
    assert_eq!(padded_cell_text("wrap ", 12, 0, 6), "wrap 1");
    assert_eq!(padded_cell_text("", 12345, 678, 8), "12345:67");
    let document = editor_document(60);
    assert_eq!(document.len(), 60);
    assert!(document.starts_with("row 0000 local edit line\nrow 0001 local edit line\nrow 0002"));
    assert_eq!(editor_document(0), "");
    assert_eq!(iteration_budget(10_000), (1, 3));
    assert_eq!(iteration_budget(999), (3, 12));
}

#[test]
fn highlight_spans_follow_lines_and_breaks() {
    assert_eq!(text_highlight_spans("ab\ncd", 1, 4), vec![(1, 2, true), (3, 4, false)]);
    assert_eq!(text_highlight_spans("ab\ncd", 0, 2), vec![(0, 2, false)]);
    assert!(text_highlight_spans("ab\ncd", 2, 2).is_empty());
    assert!(text_highlight_spans("ab\ncd", 1, 9).is_empty());
    assert!(text_highlight_spans("é", 1, 2).is_empty());
}

#[test]
fn month_labels_fill_year_and_month_placeholders() {
    assert_eq!(calendar_month_label("{month}月", 2026, 6), "6月");
    assert_eq!(calendar_month_label("{year}-{monthPad}", 2026, 6), "2026-06");
    assert_eq!(calendar_month_label("{year}/{month}", -5, 12), "-5/12");
    assert_eq!(calendar_month_label("plain", 2026, 1), "plain");
}

#[test]
fn qr_spec_reads_modules_and_width_attributes() {
    let type_id = ComponentTypeId::new("nana.qr-code").unwrap();
    let attrs = [("data-modules", "1,0,0,1,1,0"), ("Module-Width", " 2 ")];
    let spec = SemanticSpec {
        attrs: &attrs,
        ..SemanticSpec::from_parts(&type_id)
    };
    assert!(qr_modules_from_spec(&spec).is_none());
    let square = [("modules", "1001"), ("module-width", "wide")];
    let spec = SemanticSpec {
        attrs: &square,
        ..SemanticSpec::from_parts(&type_id)
    };
    assert_eq!(qr_modules_from_spec(&spec), Some((vec![true, false, false, true], 2)));
    assert!(qr_modules_from_spec(&SemanticSpec::from_parts(&type_id)).is_none());
}

#[test]
fn usize_parsing_follows_from_str() {
    let chars = |s: &str| s.chars().collect::<Vec<char>>();
    assert_eq!(parse_usize(&chars("42")), Some(42));
    assert_eq!(parse_usize(&chars("+7")), Some(7));
    assert_eq!(parse_usize(&chars("-1")), None);
    assert_eq!(parse_usize(&chars("")), None);
    assert_eq!(parse_usize(&chars("+")), None);
    assert_eq!(parse_usize(&chars("99999999999999999999999")), None);
}
