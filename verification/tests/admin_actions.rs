use mousuo::common::order_state::{action_target_status, allowed_transition, next_actions};

#[test]
fn each_action_names_its_target_status() {
    assert_eq!(action_target_status("admin_cancel_order"), Some("cancelled"));
    assert_eq!(action_target_status("admin_mark_shipped"), Some("shipped"));
    assert_eq!(action_target_status("admin_mark_completed"), Some("completed"));
    assert_eq!(action_target_status("shipped"), None);
    assert_eq!(action_target_status(""), None);
}

#[test]
fn every_offered_action_is_an_allowed_transition() {
    for status in ["pending", "paid", "shipped", "completed", "cancelled"] {
        for action in next_actions(status) {
            let target = action_target_status(action).expect("offered action has a target");
            assert!(allowed_transition(status, target), "{status} -> {target}");
        }
    }
}
