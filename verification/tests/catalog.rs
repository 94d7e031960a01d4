use gettext_translator::translator::apply_translations;
use gettext_translator::translator::join_lines;
use gettext_translator::translator::split_lines;
use gettext_translator::translator::extract_po_string;
use gettext_translator::translator::is_msgid;
use gettext_translator::translator::scan_catalog;
use gettext_translator::translator::CatalogRecord;
use gettext_translator::translator::MalformedLineError;

fn chars(s: &str) -> Vec<char> {
    s.chars().collect()
}

fn text(v: &Vec<char>) -> String {
    v.iter().collect()
}

fn make_lines(ls: &[&str]) -> Vec<Vec<char>> {
    ls.iter().map(|l| chars(l)).collect()
}

fn texts(ls: &Vec<Vec<char>>) -> Vec<String> {
    ls.iter().map(|l| text(l)).collect()
}

fn unwrap_records(
    r: Result<Vec<CatalogRecord>, MalformedLineError>,
) -> Vec<CatalogRecord> {
    match r {
        Ok(v) => v,
        Err(_) => panic!("expected a successful scan"),
    }
}

fn unwrap_err_line(r: Result<Vec<CatalogRecord>, MalformedLineError>) -> String {
    match r {
        Ok(_) => panic!("expected a failed scan"),
        Err(e) => text(&e.line),
    }
}

#[test]
fn is_msgid_recognizes_prefix() {
    assert!(is_msgid(&chars("msgid \"Hello\"")));
    assert!(!is_msgid(&chars("msgid_plural \"Hello\"")));
    assert!(!is_msgid(&chars("msgstr \"Hello\"")));
    assert!(!is_msgid(&chars("msgid")));
    assert!(!is_msgid(&chars("")));
}

#[test]
fn extracts_quoted_payload() {
    match extract_po_string(&chars("msgid \"Hello\"")) {
        Ok(p) => assert_eq!(text(&p), "Hello"),
        Err(_) => panic!("expected extraction to succeed"),
    }
}

#[test]
fn extracts_empty_payload() {
    match extract_po_string(&chars("msgstr \"\"")) {
        Ok(p) => assert_eq!(text(&p), ""),
        Err(_) => panic!("expected extraction to succeed"),
    }
}

#[test]
fn extraction_fails_without_closing_quote() {
    match extract_po_string(&chars("msgid \"Hello")) {
        Ok(_) => panic!("expected a malformed-line error"),
        Err(e) => assert_eq!(text(&e.line), "msgid \"Hello"),
    }
}

#[test]
fn extraction_fails_without_any_quote() {
    assert!(extract_po_string(&chars("msgid Hello")).is_err());
}

#[test]
fn complete_catalog_scans_to_no_records() {
    let lines = make_lines(&[
        "msgid \"Hello\"",
        "msgstr \"Hola\"",
        "",
        "msgid \"Cat\"",
        "msgid_plural \"Cats\"",
        "msgstr[0] \"Gato\"",
        "msgstr[1] \"Gatos\"",
    ]);
    let recs = unwrap_records(scan_catalog(&lines, false));
    assert_eq!(recs.len(), 0);
    let (out, count) = apply_translations(&lines, &recs, &Vec::new());
    assert_eq!(count, 0);
    assert_eq!(texts(&out), texts(&lines));
}

#[test]
fn force_rescans_every_record() {
    let lines = make_lines(&[
        "# a comment",
        "msgid \"Hello\"",
        "msgstr \"Hola\"",
        "",
        "msgid \"Cat\"",
        "msgid_plural \"Cats\"",
        "msgstr[0] \"Gato\"",
        "msgstr[1] \"Gatos\"",
    ]);
    let recs = unwrap_records(scan_catalog(&lines, true));
    assert_eq!(recs.len(), 2);
    let translations = vec![chars("Bonjour"), chars("Chats")];
    let (out, count) = apply_translations(&lines, &recs, &translations);
    assert_eq!(count, 2);
    assert_eq!(
        texts(&out),
        vec![
            "# a comment".to_string(),
            "msgid \"Hello\"".to_string(),
            "msgstr \"Bonjour\"".to_string(),
            "".to_string(),
            "msgid \"Cat\"".to_string(),
            "msgid_plural \"Cats\"".to_string(),
            "msgstr[0] \"Chats\"".to_string(),
            "msgstr[1] \"Chats\"".to_string(),
        ]
    );
}

#[test]
fn singular_record_with_empty_slot_needs_translation() {
    let lines = make_lines(&["msgid \"Hello\"", "msgstr \"\""]);
    let recs = unwrap_records(scan_catalog(&lines, false));
    assert_eq!(recs.len(), 1);
    match &recs[0] {
        CatalogRecord::Singular { at, key, current } => {
            assert_eq!(*at, 0);
            assert_eq!(text(key), "Hello");
            assert_eq!(text(current), "");
        }
        CatalogRecord::Plural { .. } => panic!("expected a singular record"),
    }
}

#[test]
fn singular_translation_touches_only_the_slot_line() {
    let lines = make_lines(&["# header", "msgid \"Hello\"", "msgstr \"\"", "# trailer"]);
    let recs = unwrap_records(scan_catalog(&lines, false));
    let (out, count) = apply_translations(&lines, &recs, &vec![chars("Hola")]);
    assert_eq!(count, 1);
    assert_eq!(text(&out[0]), "# header");
    assert_eq!(text(&out[1]), "msgid \"Hello\"");
    assert_eq!(text(&out[2]), "msgstr \"Hola\"");
    assert_eq!(text(&out[3]), "# trailer");
}

#[test]
fn plural_translation_fills_both_slots_with_the_same_text() {
    let lines = make_lines(&[
        "msgid \"Cat\"",
        "msgid_plural \"Cats\"",
        "msgstr[0] \"\"",
        "msgstr[1] \"\"",
    ]);
    let recs = unwrap_records(scan_catalog(&lines, false));
    assert_eq!(recs.len(), 1);
    match &recs[0] {
        CatalogRecord::Plural { at, plural_key, slot0, slot1 } => {
            assert_eq!(*at, 0);
            assert_eq!(text(plural_key), "Cats");
            assert_eq!(text(slot0), "");
            assert_eq!(text(slot1), "");
        }
        CatalogRecord::Singular { .. } => panic!("expected a plural record"),
    }
    let (out, count) = apply_translations(&lines, &recs, &vec![chars("Gatos")]);
    assert_eq!(count, 1);
    assert_eq!(text(&out[0]), "msgid \"Cat\"");
    assert_eq!(text(&out[1]), "msgid_plural \"Cats\"");
    assert_eq!(text(&out[2]), "msgstr[0] \"Gatos\"");
    assert_eq!(text(&out[3]), "msgstr[1] \"Gatos\"");
}

#[test]
fn plural_record_with_one_empty_slot_needs_translation() {
    let lines = make_lines(&[
        "msgid \"Cat\"",
        "msgid_plural \"Cats\"",
        "msgstr[0] \"Gato\"",
        "msgstr[1] \"\"",
    ]);
    let recs = unwrap_records(scan_catalog(&lines, false));
    assert_eq!(recs.len(), 1);
}

#[test]
fn malformed_slot_line_aborts_the_scan() {
    let lines = make_lines(&["msgid \"Hello\"", "msgstr oops"]);
    assert_eq!(unwrap_err_line(scan_catalog(&lines, false)), "msgstr oops");
}

#[test]
fn malformed_line_in_complete_record_still_aborts() {
    let lines = make_lines(&["msgid \"Hello\"", "msgstr no quotes here"]);
    assert!(scan_catalog(&lines, false).is_err());
}

#[test]
fn malformed_second_plural_slot_aborts_the_scan() {
    let lines = make_lines(&[
        "msgid \"Cat\"",
        "msgid_plural \"Cats\"",
        "msgstr[0] \"Gato\"",
        "msgstr[1] broken",
    ]);
    assert_eq!(unwrap_err_line(scan_catalog(&lines, false)), "msgstr[1] broken");
}

#[test]
fn single_quote_line_is_malformed() {
    let lines = make_lines(&["msgid \"Hello\"", "msgstr \""]);
    assert_eq!(unwrap_err_line(scan_catalog(&lines, false)), "msgstr \"");
}

#[test]
fn unrelated_lines_are_skipped() {
    let lines = make_lines(&[
        "# translator comment",
        "#: src/main.ex:1",
        "",
        "not a record \"even with quotes\"",
    ]);
    let recs = unwrap_records(scan_catalog(&lines, false));
    assert_eq!(recs.len(), 0);
}

#[test]
fn truncated_record_at_end_of_file_is_skipped() {
    let lines = make_lines(&["msgid \"Hello\""]);
    let recs = unwrap_records(scan_catalog(&lines, false));
    assert_eq!(recs.len(), 0);
}

#[test]
fn msgid_followed_by_indexed_slot_counts_as_singular() {
    // the singular shape is tried first and `msgstr[0]` carries the
    // `msgstr` prefix
    let lines = make_lines(&["msgid \"Cat\"", "msgstr[0] \"\""]);
    let recs = unwrap_records(scan_catalog(&lines, false));
    assert_eq!(recs.len(), 1);
    assert!(matches!(&recs[0], CatalogRecord::Singular { .. }));
    let (out, _) = apply_translations(&lines, &recs, &vec![chars("Gato")]);
    assert_eq!(text(&out[1]), "msgstr \"Gato\"");
}

#[test]
fn empty_catalog_scans_to_nothing() {
    let lines: Vec<Vec<char>> = Vec::new();
    let recs = unwrap_records(scan_catalog(&lines, false));
    assert_eq!(recs.len(), 0);
    let recs = unwrap_records(scan_catalog(&lines, true));
    assert_eq!(recs.len(), 0);
}

#[test]
fn split_lines_handles_endings() {
    assert_eq!(texts(&split_lines(&chars(""))), Vec::<String>::new());
    assert_eq!(texts(&split_lines(&chars("a"))), vec!["a".to_string()]);
    assert_eq!(
        texts(&split_lines(&chars("a\nb"))),
        vec!["a".to_string(), "b".to_string()]
    );
    assert_eq!(texts(&split_lines(&chars("a\nb\n"))), vec!["a".to_string(), "b".to_string()]);
    assert_eq!(
        texts(&split_lines(&chars("a\r\nb\r\n"))),
        vec!["a".to_string(), "b".to_string()]
    );
    assert_eq!(
        texts(&split_lines(&chars("a\n\nb"))),
        vec!["a".to_string(), "".to_string(), "b".to_string()]
    );
    assert_eq!(texts(&split_lines(&chars("\n"))), vec!["".to_string()]);
}

#[test]
fn join_lines_uses_single_line_feeds() {
    assert_eq!(text(&join_lines(&Vec::new())), "");
    assert_eq!(text(&join_lines(&make_lines(&["a"]))), "a");
    assert_eq!(text(&join_lines(&make_lines(&["a", "b", ""]))), "a\nb\n");
    assert_eq!(text(&join_lines(&make_lines(&["msgid \"x\"", "msgstr \"y\""]))), "msgid \"x\"\nmsgstr \"y\"");
}

#[test]
fn a_rewritten_file_round_trips_through_split_and_join() {
    let content = chars("msgid \"Hi\"\nmsgstr \"\"\n# end");
    let lines = split_lines(&content);
    let recs = unwrap_records(scan_catalog(&lines, false));
    assert_eq!(recs.len(), 1);
    let (out, _) = apply_translations(&lines, &recs, &vec![chars("Hola")]);
    assert_eq!(text(&join_lines(&out)), "msgid \"Hi\"\nmsgstr \"Hola\"\n# end");
}

#[test]
fn force_rescan_is_stable_across_runs() {
    // re-running with force set yields the same changed count whatever
    // the prior translation state
    let lines = make_lines(&["msgid \"Hi\"", "msgstr \"\""]);
    let recs = unwrap_records(scan_catalog(&lines, true));
    assert_eq!(recs.len(), 1);
    let (out, count) = apply_translations(&lines, &recs, &vec![chars("Hola")]);
    assert_eq!(count, 1);
    let recs2 = unwrap_records(scan_catalog(&out, true));
    assert_eq!(recs2.len(), 1);
    let (out2, count2) = apply_translations(&out, &recs2, &vec![chars("Hola")]);
    assert_eq!(count2, 1);
    assert_eq!(texts(&out2), texts(&out));
}
