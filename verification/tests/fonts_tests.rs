use codecell::fonts::filter_monospace_fonts;

#[test]
fn keeps_only_monospace_names_sorted_without_duplicates() {
    let families = vec![
        "JetBrains Mono".to_string(),
        "Arial".to_string(),
        "Fira Code".to_string(),
        "Times New Roman".to_string(),
        "Courier New".to_string(),
        "Fira Code".to_string(),
        "DejaVu Sans Mono".to_string(),
    ];
    let fonts = filter_monospace_fonts(&families);
    assert_eq!(
        fonts,
        vec![
            "Courier New".to_string(),
            "DejaVu Sans Mono".to_string(),
            "Fira Code".to_string(),
            "JetBrains Mono".to_string(),
        ]
    );
}

#[test]
fn matching_is_case_insensitive() {
    let families = vec!["CONSOLAS".to_string(), "menlo".to_string(), "Georgia".to_string()];
    let fonts = filter_monospace_fonts(&families);
    assert_eq!(fonts, vec!["CONSOLAS".to_string(), "menlo".to_string()]);
}

#[test]
fn empty_input_yields_empty_list() {
    let fonts = filter_monospace_fonts(&Vec::new());
    assert!(fonts.is_empty());
}
