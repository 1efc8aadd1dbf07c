use file_dialog::filters::{default_extension, extension_pattern, filter_table, Filter};

fn wide(s: &str) -> Vec<u16> {
    let mut v: Vec<u16> = s.encode_utf16().collect();
    v.push(0);
    v
}

#[test]
fn pattern_of_no_extensions() {
    assert_eq!(extension_pattern(&vec![]), "");
}

#[test]
fn pattern_of_one_extension() {
    assert_eq!(extension_pattern(&vec!["rs".to_string()]), "*.rs");
}

#[test]
fn pattern_joins_with_semicolon() {
    let exts = vec!["png".to_string(), "jpg".to_string(), "gif".to_string()];
    assert_eq!(extension_pattern(&exts), "*.png;*.jpg;*.gif");
}

#[test]
fn table_of_no_filters_is_empty() {
    assert_eq!(filter_table(&vec![]).len(), 0);
}

#[test]
fn table_holds_name_and_patterns() {
    let filters = vec![
        Filter { name: "Images".to_string(), extensions: vec!["png".to_string(), "jpg".to_string()] },
        Filter { name: "Text".to_string(), extensions: vec!["txt".to_string()] },
    ];
    let table = filter_table(&filters);
    assert_eq!(table.len(), 2);
    assert_eq!(table[0].0, wide("Images"));
    assert_eq!(table[0].1, wide("*.png;*.jpg"));
    assert_eq!(table[1].0, wide("Text"));
    assert_eq!(table[1].1, wide("*.txt"));
}

#[test]
fn default_extension_is_first_of_first() {
    let filters = vec![
        Filter { name: "Images".to_string(), extensions: vec!["png".to_string(), "jpg".to_string()] },
        Filter { name: "Text".to_string(), extensions: vec!["txt".to_string()] },
    ];
    assert_eq!(default_extension(&filters), Some(wide("png")));
}

#[test]
fn default_extension_absent_without_filters() {
    assert_eq!(default_extension(&vec![]), None);
}

#[test]
fn default_extension_absent_without_extensions() {
    let filters = vec![Filter { name: "All".to_string(), extensions: vec![] }];
    assert_eq!(default_extension(&filters), None);
}
