use task_supervisor::database::models::{Button, Folder, Monitor, UnifiedItem};
use task_supervisor::database::positions::{
    check_updates, close_gaps, find_gap, find_repeat, next_position, position_fits,
    positions_unique, same_opt_text, ItemKind, PositionUpdate, UnifiedPositionUpdate,
};

fn update(id: &str, kind: &str, position: i32, folder: Option<&str>) -> UnifiedPositionUpdate {
    UnifiedPositionUpdate {
        id: id.to_string(),
        item_type: kind.to_string(),
        position,
        folder_id: folder.map(|f| f.to_string()),
    }
}

#[test]
fn a_batch_without_faults_is_accepted() {
    assert_eq!(check_updates(&Vec::new()), Ok(()));
    let batch = vec![
        update("m1", "monitor", 0, None),
        update("f1", "folder", 1, None),
        update("b1", "button", 2, None),
        update("b2", "button", 0, Some("f1")),
        update("m2", "monitor", 1, Some("f1")),
        update("b3", "button", 0, Some("f2")),
    ];
    assert_eq!(check_updates(&batch), Ok(()));
    // Gaps are not a fault of a batch.
    let batch = vec![update("a", "button", 7, None), update("b", "button", 3, None)];
    assert_eq!(check_updates(&batch), Ok(()));
}

#[test]
fn two_items_at_one_place_are_refused() {
    let batch = vec![
        update("m1", "monitor", 0, None),
        update("b1", "button", 1, Some("f1")),
        update("b2", "button", 1, Some("f1")),
    ];
    assert_eq!(
        check_updates(&batch),
        Err("Duplicate positions detected in same container".to_string())
    );
    // At the root as well, and across kinds.
    let batch = vec![update("m1", "monitor", 4, None), update("f1", "folder", 4, None)];
    assert_eq!(
        check_updates(&batch),
        Err("Duplicate positions detected in same container".to_string())
    );
    // The same position in two containers is no clash.
    let batch = vec![
        update("a", "button", 1, Some("f1")),
        update("b", "button", 1, Some("f2")),
        update("c", "button", 1, None),
        update("d", "button", 1, Some("")),
    ];
    assert_eq!(check_updates(&batch), Ok(()));
}

#[test]
fn a_position_below_zero_is_refused() {
    let batch = vec![
        update("a", "button", 0, None),
        update("b", "button", -3, None),
        update("c", "button", -1, Some("f")),
    ];
    assert_eq!(
        check_updates(&batch),
        Err("Invalid position: -3 (must be non-negative)".to_string())
    );
    let batch = vec![update("a", "button", i32::MIN, None)];
    assert_eq!(
        check_updates(&batch),
        Err("Invalid position: -2147483648 (must be non-negative)".to_string())
    );
}

#[test]
fn clashes_are_reported_before_negative_positions() {
    let batch = vec![
        update("a", "button", -1, None),
        update("b", "button", 5, Some("f")),
        update("c", "monitor", 5, Some("f")),
    ];
    assert_eq!(
        check_updates(&batch),
        Err("Duplicate positions detected in same container".to_string())
    );
    let batch = vec![update("a", "button", -1, None), update("b", "button", -1, None)];
    assert_eq!(
        check_updates(&batch),
        Err("Duplicate positions detected in same container".to_string())
    );
}

#[test]
fn item_kinds_are_read_exactly() {
    assert_eq!(ItemKind::from_type("monitor"), Ok(ItemKind::Monitor));
    assert_eq!(ItemKind::from_type("folder"), Ok(ItemKind::Folder));
    assert_eq!(ItemKind::from_type("button"), Ok(ItemKind::Button));
    assert_eq!(
        ItemKind::from_type("widget"),
        Err("Invalid item_type: widget".to_string())
    );
    assert_eq!(
        ItemKind::from_type("Button"),
        Err("Invalid item_type: Button".to_string())
    );
    assert_eq!(ItemKind::from_type(""), Err("Invalid item_type: ".to_string()));
}

#[test]
fn uniqueness_of_positions() {
    assert!(positions_unique(&Vec::new()));
    assert!(positions_unique(&vec![3]));
    assert!(positions_unique(&vec![0, 1, 2, 5]));
    assert!(positions_unique(&vec![2, 0, 1]));
    assert!(!positions_unique(&vec![0, 1, 1]));
    assert!(!positions_unique(&vec![4, 1, 2, 4]));
    assert!(!positions_unique(&vec![-1, -1]));
}

#[test]
fn the_first_repeat_is_found() {
    assert_eq!(find_repeat(&Vec::new()), None);
    assert_eq!(find_repeat(&vec![0, 1, 2]), None);
    assert_eq!(find_repeat(&vec![0, 1, 1, 0]), Some(2));
    assert_eq!(find_repeat(&vec![5, 5]), Some(1));
    assert_eq!(find_repeat(&vec![1, 2, 3, 1, 2]), Some(3));
}

#[test]
fn the_first_gap_is_found() {
    assert_eq!(find_gap(&Vec::new()), None);
    assert_eq!(find_gap(&vec![0, 1, 2, 3]), None);
    assert_eq!(find_gap(&vec![1, 2, 3]), Some(0));
    assert_eq!(find_gap(&vec![0, 1, 3]), Some(2));
    assert_eq!(find_gap(&vec![0, -1]), Some(1));
    assert_eq!(find_gap(&vec![0, 0]), Some(1));
}

#[test]
fn a_position_has_to_fit_the_container() {
    assert!(position_fits(0, 0));
    assert!(!position_fits(1, 0));
    assert!(position_fits(0, 3));
    assert!(position_fits(3, 3));
    assert!(!position_fits(4, 3));
    assert!(!position_fits(-1, 3));
    assert!(position_fits(i32::MAX, usize::MAX));
    assert!(!position_fits(i32::MIN, usize::MAX));
}

#[test]
fn the_next_position_follows_the_highest() {
    assert_eq!(next_position(None), Some(0));
    assert_eq!(next_position(Some(0)), Some(1));
    assert_eq!(next_position(Some(41)), Some(42));
    assert_eq!(next_position(Some(-1)), Some(0));
    assert_eq!(next_position(Some(i32::MAX - 1)), Some(i32::MAX));
    assert_eq!(next_position(Some(i32::MAX)), None);
}

#[test]
fn gaps_are_closed_in_order() {
    assert_eq!(close_gaps(&Vec::new()), Vec::<Option<i32>>::new());
    assert_eq!(close_gaps(&vec![0, 1, 2]), vec![None, None, None]);
    assert_eq!(close_gaps(&vec![0, 2, 5]), vec![None, Some(1), Some(2)]);
    assert_eq!(close_gaps(&vec![3]), vec![Some(0)]);
    assert_eq!(close_gaps(&vec![1, 1, 2]), vec![Some(0), None, None]);
    // Applying the moves leaves the positions 0, 1, 2, ...
    let before = vec![2, 3, 7, 8, 20];
    let after: Vec<i32> = before
        .iter()
        .zip(close_gaps(&before))
        .map(|(old, new)| new.unwrap_or(*old))
        .collect();
    assert_eq!(after, vec![0, 1, 2, 3, 4]);
    assert_eq!(find_gap(&after), None);
}

#[test]
fn optional_texts_are_compared() {
    assert!(same_opt_text(&None, &None));
    assert!(same_opt_text(&Some("a".to_string()), &Some("a".to_string())));
    assert!(!same_opt_text(&Some("a".to_string()), &Some("b".to_string())));
    assert!(!same_opt_text(&Some(String::new()), &None));
    assert!(!same_opt_text(&None, &Some(String::new())));
}

#[test]
fn every_item_has_a_position() {
    let folder = Folder {
        id: "f".to_string(),
        name: "Tools".to_string(),
        icon: None,
        position: 4,
        created_at: 0,
    };
    let button = Button {
        id: "b".to_string(),
        name: "Build".to_string(),
        icon: None,
        script_type: "shell".to_string(),
        script_content: "make".to_string(),
        folder_id: Some("f".to_string()),
        position: 2,
        created_at: 0,
        updated_at: 0,
    };
    let monitor = Monitor {
        id: "m".to_string(),
        name: "Db".to_string(),
        icon: None,
        monitor_type: "port".to_string(),
        target: "5432".to_string(),
        check_interval: 10,
        expected_result: None,
        alert_on_failure: false,
        is_active: false,
        last_check_time: None,
        last_status: None,
        folder_id: None,
        position: 9,
        created_at: 0,
    };
    assert_eq!(UnifiedItem::Folder(folder).position(), 4);
    assert_eq!(UnifiedItem::Button(button).position(), 2);
    assert_eq!(UnifiedItem::Monitor(monitor).position(), 9);
    let plain = PositionUpdate { id: "b".to_string(), position: 1 };
    assert_eq!(plain.position, 1);
}
