use simple_image_converter::options::FileStatus;
use simple_image_converter::queue::{
    handle_clear_list, handle_conversion_finished, handle_delete_selected, handle_external_files,
    handle_file_converted, handle_files_selected, handle_height_changed, handle_item_drag_started,
    handle_item_dropped, handle_item_hovered, handle_output_selected, handle_quality_input,
    handle_toggle_selection, handle_width_changed, AppState, FileItem,
};

fn names(state: &AppState) -> Vec<String> {
    state.files.iter().map(|f| f.path.clone()).collect()
}

fn strings(items: &[&str]) -> Vec<String> {
    items.iter().map(|s| s.to_string()).collect()
}

#[test]
fn selected_files_are_added_once() {
    let mut st = AppState::default();
    handle_files_selected(&mut st, strings(&["a.jpg", "b.png", "a.jpg"]));
    handle_files_selected(&mut st, strings(&["b.png", "c.webp"]));
    assert_eq!(names(&st), strings(&["a.jpg", "b.png", "c.webp"]));
    assert!(st.files.iter().all(|f| matches!(f.status, FileStatus::Pending)));
    assert_ne!(st.files[0].id, st.files[1].id);
}

#[test]
fn dropped_files_are_appended() {
    let mut st = AppState::default();
    handle_external_files(&mut st, strings(&["a.jpg", "a.jpg"]));
    assert_eq!(names(&st), strings(&["a.jpg", "a.jpg"]));
}

#[test]
fn drag_and_drop_moves_an_item() {
    let mut st = AppState::default();
    handle_files_selected(&mut st, strings(&["a", "b", "c", "d"]));
    handle_toggle_selection(&mut st, 1);
    handle_item_hovered(&mut st, Some(3));
    assert_eq!(st.hovered_index, None);
    handle_item_drag_started(&mut st, 0);
    handle_item_hovered(&mut st, Some(2));
    handle_item_dropped(&mut st);
    assert_eq!(names(&st), strings(&["b", "c", "a", "d"]));
    assert!(st.selected_indices.is_empty());
    assert_eq!((st.dragging_index, st.hovered_index), (None, None));
}

#[test]
fn drop_outside_the_list_changes_nothing() {
    let mut st = AppState::default();
    handle_files_selected(&mut st, strings(&["a", "b"]));
    handle_toggle_selection(&mut st, 0);
    handle_item_drag_started(&mut st, 0);
    handle_item_hovered(&mut st, Some(5));
    handle_item_dropped(&mut st);
    assert_eq!(names(&st), strings(&["a", "b"]));
    assert!(st.selected_indices.contains(&0));
}

#[test]
fn selection_toggles_and_deletes() {
    let mut st = AppState::default();
    handle_files_selected(&mut st, strings(&["a", "b", "c", "d", "e"]));
    handle_toggle_selection(&mut st, 1);
    handle_toggle_selection(&mut st, 3);
    handle_toggle_selection(&mut st, 4);
    handle_toggle_selection(&mut st, 4);
    handle_toggle_selection(&mut st, 9);
    handle_delete_selected(&mut st);
    assert_eq!(names(&st), strings(&["a", "c", "e"]));
    assert!(st.selected_indices.is_empty());
    handle_clear_list(&mut st);
    assert!(st.files.is_empty());
}

#[test]
fn outcomes_are_recorded_and_batch_finishes() {
    let mut st = AppState::default();
    st.files.push(FileItem::new("a".to_string()));
    st.files.push(FileItem::new("b".to_string()));
    for f in st.files.iter_mut() {
        f.status = FileStatus::Processing;
    }
    st.is_processing = true;
    let (a, b) = (st.files[0].id, st.files[1].id);
    assert!(!handle_file_converted(&mut st, a, Ok(())));
    assert!(st.is_processing);
    assert!(matches!(st.files[0].status, FileStatus::Done));
    assert!(handle_file_converted(&mut st, b, Err("bad".to_string())));
    assert!(!st.is_processing);
    assert!(matches!(&st.files[1].status, FileStatus::Error(m) if m == "bad"));
    st.is_processing = true;
    handle_conversion_finished(&mut st);
    assert!(!st.is_processing);
}

#[test]
fn typed_values_are_checked() {
    let mut st = AppState::default();
    assert!(handle_quality_input(&mut st, "150"));
    assert_eq!(st.options.quality, 100);
    assert!(handle_quality_input(&mut st, "42"));
    assert_eq!(st.options.quality, 42);
    assert!(!handle_quality_input(&mut st, "300"));
    assert!(!handle_quality_input(&mut st, "x"));
    assert_eq!(st.options.quality, 42);
    assert!(handle_width_changed(&mut st, "800".to_string()));
    assert!(!handle_width_changed(&mut st, "80a".to_string()));
    assert_eq!(st.options.target_width, "800");
    assert!(handle_height_changed(&mut st, "".to_string()));
    assert_eq!(st.options.target_height, "");
    assert!(handle_output_selected(&mut st, Some("/out".to_string())));
    assert!(!handle_output_selected(&mut st, None));
    assert_eq!(st.options.custom_output_path, Some("/out".to_string()));
}
