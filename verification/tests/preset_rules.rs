use streamer::presets::{
    check_preset_document, import_slug, is_preset_extension, preset_file_name, preset_slug,
    preset_verdict, PresetInfo, INSTANCES_MEMBER, UNNAMED_IMPORT,
};

#[test]
fn slug_is_lower_case_with_hyphens() {
    assert_eq!(preset_slug("My Cool Layout"), "my-cool-layout");
    assert_eq!(preset_slug("already-a-slug"), "already-a-slug");
    assert_eq!(preset_slug(""), "");
    assert_eq!(preset_slug(" A  B "), "-a--b-");
    assert_eq!(preset_slug("\u{c9}T\u{c9} 2024"), "\u{e9}t\u{e9}-2024");
}

#[test]
fn preset_file_has_the_json_extension() {
    assert_eq!(preset_file_name("my-cool-layout"), "my-cool-layout.json");
    assert_eq!(preset_file_name(""), ".json");
    assert_eq!(preset_file_name("Name With Space"), "Name With Space.json");
}

#[test]
fn only_json_files_are_presets() {
    assert!(is_preset_extension(Some("json")));
    assert!(!is_preset_extension(Some("JSON")));
    assert!(!is_preset_extension(Some("jsonl")));
    assert!(!is_preset_extension(Some("")));
    assert!(!is_preset_extension(Some("txt")));
    assert!(!is_preset_extension(None));
}

#[test]
fn listed_preset_falls_back_to_a_fixed_name() {
    let named = PresetInfo::listed(Some("stage".to_string()), "/p/stage.json".to_string());
    assert_eq!(named, PresetInfo::new("stage".to_string(), "/p/stage.json".to_string()));
    let unnamed = PresetInfo::listed(None, "/p/.json".to_string());
    assert_eq!(unnamed.name(), "unknown");
    assert_eq!(unnamed.path(), "/p/.json");
}

#[test]
fn imported_preset_is_filed_under_the_slug_of_its_stem() {
    assert_eq!(import_slug(Some("Big Show")), "big-show");
    assert_eq!(import_slug(None), "imported");
    assert_eq!(UNNAMED_IMPORT, "imported");
}

#[test]
fn document_with_instances_array_is_accepted() {
    assert_eq!(INSTANCES_MEMBER, "instances");
    assert_eq!(check_preset_document("{\"instances\": []}"), Ok(()));
    assert_eq!(check_preset_document("{\"name\":\"x\",\"instances\":[{\"id\":1}]}"), Ok(()));
}

#[test]
fn document_without_instances_array_is_refused() {
    let refusal = Err("Preset file must contain an \"instances\" array".to_string());
    assert_eq!(check_preset_document("{}"), refusal);
    assert_eq!(check_preset_document("{\"instances\": {}}"), refusal);
    assert_eq!(check_preset_document("{\"instances\": null}"), refusal);
    assert_eq!(check_preset_document("{\"Instances\": []}"), refusal);
    assert_eq!(check_preset_document("[]"), refusal);
    assert_eq!(check_preset_document("[{\"instances\": []}]"), refusal);
    assert_eq!(check_preset_document("3"), refusal);
}

#[test]
fn document_that_is_not_json_is_refused_with_the_parser_message() {
    assert_eq!(
        check_preset_document(""),
        Err("Invalid JSON: EOF while parsing a value at line 1 column 0".to_string())
    );
    assert_eq!(
        check_preset_document("{\"instances\": ["),
        Err("Invalid JSON: EOF while parsing a list at line 1 column 15".to_string())
    );
    let verdict = check_preset_document("not json");
    assert!(verdict.unwrap_err().starts_with("Invalid JSON: expected"));
}

#[test]
fn verdict_puts_the_syntax_error_first() {
    assert_eq!(
        preset_verdict(Some("bad".to_string()), Some(true)),
        Err("Invalid JSON: bad".to_string())
    );
    assert_eq!(preset_verdict(None, Some(true)), Ok(()));
    assert_eq!(
        preset_verdict(None, Some(false)),
        Err("Preset file must contain an \"instances\" array".to_string())
    );
    assert_eq!(
        preset_verdict(None, None),
        Err("Preset file must contain an \"instances\" array".to_string())
    );
}
