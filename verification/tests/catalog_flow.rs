use lexito::catalog::CatalogDocument;
use lexito::error::CatalogError;
use lexito::model::{EntryStatus, TranslationPayload, ValidationCode};
use lexito::po_text::{quick_po_stats, repair_po_text};
use lexito::project::Project;
use lexito::validation::validate_translation;

const MESSAGES_POT: &str = "msgid \"\"
msgstr \"\"
\"Project-Id-Version: demo\\n\"
\"Content-Type: text/plain; charset=UTF-8\\n\"
\"Language: \\n\"

#: src/main.c:10
msgid \"Hello %s\"
msgstr \"\"

#: src/main.c:20
msgid \"Goodbye\"
msgstr \"\"
";

const FR_PO: &str = "msgid \"\"
msgstr \"\"
\"Project-Id-Version: demo\\n\"
\"Content-Type: text/plain; charset=UTF-8\\n\"
\"Language: fr\\n\"

#: src/main.c:10
msgid \"Hello %s\"
msgstr \"Bonjour %s\"

#: src/main.c:20
msgid \"Goodbye\"
msgstr \"Au revoir\"
";

#[test]
fn merges_template_into_existing_po() {
    let document = CatalogDocument::open_pot_with_existing_po(
        "fixtures/messages.pot",
        MESSAGES_POT,
        "fixtures/fr.po",
        FR_PO,
        Some("fr".to_string()),
    )
    .expect("template should merge");

    assert_eq!(document.session().stats.total, 2);
    assert_eq!(document.session().locale.as_deref(), Some("fr"));

    let greeting = document
        .session()
        .entries
        .iter()
        .find(|entry| entry.msgid == "Hello %s")
        .expect("greeting entry");

    assert_eq!(greeting.msgstr, "Bonjour %s");
}

#[test]
fn updates_translation_and_saves_po_and_mo() {
    let mut document = CatalogDocument::open("fixtures/messages.pot", MESSAGES_POT, Some("fr".to_string()))
        .expect("template should open");
    let key = document.session().entries[0].key.clone();

    let warnings = document
        .update_translation(
            &key,
            TranslationPayload { singular: "Bonjour %s".to_string(), plurals: Vec::new() },
            true,
        )
        .expect("translation should update");

    assert!(warnings.is_empty());
    assert_eq!(document.session().entries[0].status, EntryStatus::Fuzzy);

    let po_path = "out/fr.po".to_string();
    let saved = document.save_po(Some(po_path.clone()), true).expect("save should succeed");

    assert_eq!(saved.outcome.po_path, po_path);
    assert_eq!(saved.outcome.mo_path.as_deref().expect("auto compiled mo"), "out/fr.mo");
    assert!(!saved.mo_bytes.expect("mo bytes").is_empty());
    assert!(saved.po_text.contains("Bonjour %s"));
    assert!(!document.session().dirty);
}

#[test]
fn validates_placeholder_mismatch() {
    let document = CatalogDocument::open("fixtures/messages.pot", MESSAGES_POT, Some("fr".to_string()))
        .expect("template should open");
    let entry = &document.session().entries[0];

    let warnings = validate_translation(
        entry,
        &TranslationPayload { singular: "Bonjour".to_string(), plurals: Vec::new() },
    );

    assert!(!warnings.is_empty());
    assert_eq!(warnings[0].code, ValidationCode::PlaceholderMismatch);
}

#[test]
fn project_create_and_add_language() {
    let (mut project, dir) =
        Project::create("TestApp", "fixtures/messages.pot", "/home/test/lexito", false, "0".to_string())
            .unwrap();

    assert_eq!(project.project.name, "TestApp");
    assert_eq!(project.pot_path(&dir), "/home/test/lexito/TestApp/source.pot");

    let po_text = project.add_language("fr", false, MESSAGES_POT).unwrap();
    assert_eq!(project.languages.len(), 1);
    assert!(po_text.contains("\"Language: fr\\n\""));

    let po_path = project.po_path("fr", &dir).unwrap();
    assert_eq!(po_path, "/home/test/lexito/TestApp/fr.po");

    let doc = CatalogDocument::open_po(&po_path, &po_text).unwrap();
    assert!(doc.session().stats.total > 0, "Should have entries");

    let stats = project.load_language_stats(&vec![Some(po_text.clone())]);
    assert_eq!(stats.len(), 1);
    assert_eq!(stats[0].0, "fr");
}

#[test]
fn opening_a_template_sets_its_locale_and_counts_entries() {
    let document = CatalogDocument::open("messages.pot", MESSAGES_POT, Some("de".to_string())).unwrap();
    let session = document.session();
    assert_eq!(session.locale.as_deref(), Some("de"));
    assert_eq!(session.stats.total, 2);
    assert_eq!(session.stats.untranslated, 2);
    assert_eq!(session.stats.translated, 0);
    assert!(session.po_path.is_none());
    assert_eq!(session.entries[0].references, vec!["src/main.c:10".to_string()]);
}

#[test]
fn unknown_extension_is_refused() {
    match CatalogDocument::open("messages.txt", MESSAGES_POT, None) {
        Err(CatalogError::UnsupportedSource(p)) => assert_eq!(p, "messages.txt"),
        other => panic!("unexpected: {:?}", other.map(|_| ())),
    }
}

#[test]
fn broken_catalog_is_a_parse_error() {
    let result = CatalogDocument::open_po("broken.po", "msgid \"unterminated\nmsgstr");
    assert!(matches!(result, Err(CatalogError::Parse(_))));
}

#[test]
fn unknown_key_is_not_found() {
    let mut document = CatalogDocument::open_po("fr.po", FR_PO).unwrap();
    let mut key = document.session().entries[0].key.clone();
    key.msgid = "Nope".to_string();
    assert!(matches!(document.set_fuzzy(&key, true), Err(CatalogError::EntryNotFound)));
    assert!(!document.session().dirty);
}

#[test]
fn fuzzy_flag_round_trip() {
    let mut document = CatalogDocument::open_po("fr.po", FR_PO).unwrap();
    let key = document.session().entries[1].key.clone();
    assert_eq!(document.session().entries[1].status, EntryStatus::Translated);
    document.set_fuzzy(&key, true).unwrap();
    assert_eq!(document.session().entries[1].status, EntryStatus::Fuzzy);
    assert_eq!(document.session().stats.fuzzy, 1);
    document.set_fuzzy(&key, false).unwrap();
    assert_eq!(document.session().entries[1].status, EntryStatus::Translated);
    assert_eq!(document.session().stats.fuzzy, 0);
    assert_eq!(document.session().stats.translated, 2);
}

#[test]
fn saving_without_a_destination_is_refused() {
    let mut document = CatalogDocument::open("messages.pot", MESSAGES_POT, None).unwrap();
    assert!(matches!(document.save_po(None, false), Err(CatalogError::MissingPoPath)));
    let compiled = document.compile_mo(None);
    assert!(matches!(compiled, Err(CatalogError::MissingPoPath)));
}

#[test]
fn set_locale_rewrites_language_header() {
    let mut document = CatalogDocument::open_po("fr.po", FR_PO).unwrap();
    document.set_locale("  pt_BR ");
    assert_eq!(document.session().locale.as_deref(), Some("pt_BR"));
    assert!(document.session().dirty);
}

#[test]
fn quick_stats_count_entries_without_header() {
    let stats = quick_po_stats(FR_PO);
    assert_eq!(stats.total, 2);
    assert_eq!(stats.translated, 2);
    let stats = quick_po_stats(MESSAGES_POT);
    assert_eq!(stats.total, 2);
    assert_eq!(stats.untranslated, 2);
}

const MIXED_PO: &str = "msgid \"\"
msgstr \"x\"

msgid \"a\"
msgstr \"A\"

#, fuzzy
msgid \"b\"
msgstr \"\"

msgid \"c\"
msgstr \"\"
\"C\"

#~ msgid \"old\"
#~ msgstr \"vieux\"
";

#[test]
fn quick_stats_give_flags_to_the_entry_that_follows() {
    let stats = quick_po_stats(MIXED_PO);
    assert_eq!(
        (stats.total, stats.translated, stats.untranslated, stats.fuzzy, stats.obsolete),
        (4, 2, 0, 1, 1)
    );
    let parsed = CatalogDocument::open_po("m.po", MIXED_PO).unwrap();
    let full = parsed.session().stats;
    assert_eq!(
        (stats.total, stats.translated, stats.untranslated, stats.fuzzy, stats.obsolete),
        (full.total, full.translated, full.untranslated, full.fuzzy, full.obsolete)
    );
}

#[test]
fn quick_stats_reviewer_example() {
    let text = "msgid \"\"\nmsgstr \"x\"\n\nmsgid \"a\"\nmsgstr \"A\"\n\n#, fuzzy\nmsgid \"b\"\nmsgstr \"\"";
    let stats = quick_po_stats(text);
    assert_eq!(
        (stats.total, stats.translated, stats.untranslated, stats.fuzzy, stats.obsolete, stats.warnings),
        (2, 1, 0, 1, 0, 0)
    );
}

#[test]
fn repair_leaves_clean_text_alone() {
    assert_eq!(repair_po_text(FR_PO), None);
}

#[test]
fn merging_a_template_keeps_translations() {
    let mut document = CatalogDocument::open_po("fr.po", FR_PO).unwrap();
    let template = format!("{}\n#: src/main.c:30\nmsgid \"New\"\nmsgstr \"\"\n", MESSAGES_POT);
    document.merge_template(&template).unwrap();
    assert_eq!(document.session().stats.total, 3);
    let hello = document.session().entries.iter().find(|e| e.msgid == "Hello %s").unwrap();
    assert_eq!(hello.msgstr, "Bonjour %s");
    assert!(document.session().dirty);
}

fn parse_message(text: &str) -> String {
    match CatalogDocument::open_po("x.po", text) {
        Err(CatalogError::Parse(m)) => m,
        _ => panic!("expected a parse error"),
    }
}

#[test]
fn text_the_parser_cannot_take_is_refused_by_line() {
    assert_eq!(parse_message("msgstr \"x\"\n"), "unsupported syntax at line 1");
    assert_eq!(
        parse_message("msgctxt \"menu\"\n# note\nmsgid \"a\"\nmsgstr \"b\"\n"),
        "unsupported syntax at line 2"
    );
    assert_eq!(
        parse_message("msgid \"\"\nmsgstr[0] \"x\"\n\nmsgid \"a\"\nmsgstr \"b\"\n"),
        "unsupported syntax at line 2"
    );
    assert_eq!(
        parse_message("msgid \"a\"\nmsgstr \"b\"\n# note\nmsgstr[0] \"x\"\nmsgid \"d\"\nmsgstr \"e\"\n"),
        "unsupported syntax at line 4"
    );
    assert_eq!(parse_message("msgid \"a\"\nmsgstr \"\n"), "unsupported syntax at line 2");
    assert_eq!(parse_message("msgid \"a\"\nmsgstr \"b\"\n\"\n"), "unsupported syntax at line 3");
}

#[test]
fn ordinary_catalog_lines_are_taken() {
    let text = "# translator note\n#. extracted\n#: src/a.c:1\n#, fuzzy, c-format\n#| msgid \"old\"\nmsgctxt \"menu\"\nmsgid \"a\"\n\"b\"\nmsgid_plural \"as\"\nmsgstr[0] \"x\"\nmsgstr[1] \"y\"\n\n#~ msgid \"gone\"\n#~ msgstr \"parti\"\n";
    let doc = CatalogDocument::open_po("x.po", text).unwrap();
    assert_eq!(doc.session().entries.len(), 2);
    assert_eq!(doc.session().entries[0].msgid, "ab");
}
