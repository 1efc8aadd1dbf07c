use file_dialog::dialog::{DialogPlan, FileDialog, FOS_ALLOWMULTISELECT, FOS_PICKFOLDERS};
use file_dialog::filters::Filter;

fn wide(s: &str) -> Vec<u16> {
    let mut v: Vec<u16> = s.encode_utf16().collect();
    v.push(0);
    v
}

fn sample_options() -> FileDialog {
    FileDialog {
        filters: vec![Filter {
            name: "Images".to_string(),
            extensions: vec!["png".to_string(), "jpg".to_string()],
        }],
        starting_directory: Some("C:\\Users\\me".to_string()),
        file_name: Some("shot.png".to_string()),
        title: Some("Pick an image".to_string()),
        parent: Some(0x1234),
    }
}

#[test]
fn pick_file_marshals_every_field() {
    let plan = DialogPlan::build_pick_file(&sample_options());
    assert_eq!(plan.default_extension, Some(wide("png")));
    assert_eq!(plan.file_types.len(), 1);
    assert_eq!(plan.file_types[0].0, wide("Images"));
    assert_eq!(plan.file_types[0].1, wide("*.png;*.jpg"));
    assert_eq!(plan.folder, Some(wide("C:\\Users\\me")));
    assert_eq!(plan.file_name, Some(wide("shot.png")));
    assert_eq!(plan.title, Some(wide("Pick an image")));
    assert_eq!(plan.options, None);
    assert_eq!(plan.parent, Some(0x1234));
    assert!(!plan.save);
}

#[test]
fn unset_fields_stay_unset() {
    let opt = FileDialog {
        filters: vec![],
        starting_directory: None,
        file_name: None,
        title: None,
        parent: None,
    };
    let plan = DialogPlan::build_pick_file(&opt);
    assert_eq!(plan.default_extension, None);
    assert_eq!(plan.file_types.len(), 0);
    assert_eq!(plan.folder, None);
    assert_eq!(plan.file_name, None);
    assert_eq!(plan.title, None);
    assert_eq!(plan.parent, None);
}

#[test]
fn save_file_uses_save_dialog() {
    let plan = DialogPlan::build_save_file(&sample_options());
    assert!(plan.save);
    assert_eq!(plan.options, None);
    assert_eq!(plan.file_name, Some(wide("shot.png")));
}

#[test]
fn pick_folder_drops_filters_and_file_name() {
    let plan = DialogPlan::build_pick_folder(&sample_options());
    assert_eq!(plan.default_extension, None);
    assert_eq!(plan.file_types.len(), 0);
    assert_eq!(plan.file_name, None);
    assert_eq!(plan.folder, Some(wide("C:\\Users\\me")));
    assert_eq!(plan.title, Some(wide("Pick an image")));
    assert_eq!(plan.options, Some(FOS_PICKFOLDERS));
    assert!(!plan.save);
}

#[test]
fn pick_files_allows_multiple_selection() {
    let plan = DialogPlan::build_pick_files(&sample_options());
    assert_eq!(plan.options, Some(FOS_ALLOWMULTISELECT));
    assert_eq!(plan.file_types.len(), 1);
    assert!(!plan.save);
}

#[test]
fn option_values_match_the_shell_interface() {
    assert_eq!(FOS_PICKFOLDERS, 0x20);
    assert_eq!(FOS_ALLOWMULTISELECT, 0x200);
}
