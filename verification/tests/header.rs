use todo_store::header::HeaderModel;
use todo_store::header::HeaderMsg;
use todo_store::store::AppMode;
use todo_store::store::AppModel;
use todo_store::store::AppMsg;

#[test]
fn header_toggles_map_to_modes() {
    let store = AppModel::new();
    let mut header = HeaderModel::init_model(&store);
    assert!(matches!(header.update(HeaderMsg::View), AppMsg::SetMode(AppMode::View)));
    assert!(matches!(header.update(HeaderMsg::Edit), AppMsg::SetMode(AppMode::Edit)));
    assert!(matches!(header.update(HeaderMsg::Export), AppMsg::SetMode(AppMode::Export)));
}

#[test]
fn header_message_drives_store_mode_only() {
    let mut store = AppModel::new();
    store.add_task(String::from("untouched"), false);
    let mut header = HeaderModel::init_model(&store);
    let msg = header.update(HeaderMsg::Edit);
    assert!(store.update(msg));
    assert_eq!(store.mode, AppMode::Edit);
    assert_eq!(store.tasks.len(), 1);
    assert_eq!(store.tasks[0].name, "untouched");
    assert!(!store.tasks[0].completed);
}
