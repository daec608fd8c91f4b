use workbench::db::{plan_move_down, plan_move_up, status_from_stored, Field, OrderSwap, Status};

#[test]
fn status_round_trip() {
    for s in [Status::Planned, Status::InProgress, Status::Review, Status::Done] {
        assert_eq!(Status::from_str(s.as_str()), Some(s));
    }
    assert_eq!(Status::from_str("unknown"), None);
    assert_eq!(Status::from_str(""), None);
    assert_eq!(Status::from_str("Planned"), None);
}

#[test]
fn status_texts() {
    assert_eq!(Status::Planned.as_str(), "planned");
    assert_eq!(Status::InProgress.as_str(), "in_progress");
    assert_eq!(Status::Review.as_str(), "review");
    assert_eq!(Status::Done.as_str(), "done");
    assert_eq!(Status::Planned.label(), "Planned");
    assert_eq!(Status::InProgress.label(), "In Progress");
    assert_eq!(Status::Review.label(), "Review");
    assert_eq!(Status::Done.label(), "Done");
}

#[test]
fn status_all_is_in_board_order() {
    assert_eq!(
        Status::all(),
        &[Status::Planned, Status::InProgress, Status::Review, Status::Done]
    );
}

#[test]
fn unknown_stored_status_reads_as_planned() {
    assert_eq!(status_from_stored("done"), Status::Done);
    assert_eq!(status_from_stored("in_progress"), Status::InProgress);
    assert_eq!(status_from_stored("archived"), Status::Planned);
    assert_eq!(status_from_stored(""), Status::Planned);
}

fn field(id: i64, order: i64) -> Field {
    Field {
        id,
        project_id: 1,
        name: format!("f{}", id),
        description: String::new(),
        display_order: order,
        visible: true,
    }
}

fn apply(fields: &mut Vec<Field>, swap: OrderSwap) {
    for f in fields.iter_mut() {
        if f.id == swap.first_id {
            f.display_order = swap.first_order;
        }
    }
    for f in fields.iter_mut() {
        if f.id == swap.second_id {
            f.display_order = swap.second_order;
        }
    }
    fields.sort_by_key(|f| (f.display_order, f.id));
}

fn ids(fields: &Vec<Field>) -> Vec<(i64, i64)> {
    fields.iter().map(|f| (f.id, f.display_order)).collect()
}

#[test]
fn move_up_trades_orders_with_the_field_before() {
    let fields = vec![field(10, 0), field(20, 1), field(30, 2)];
    assert_eq!(
        plan_move_up(&fields, 20),
        Some(OrderSwap { first_id: 20, first_order: 0, second_id: 10, second_order: 1 })
    );
    assert_eq!(plan_move_up(&fields, 10), None);
    assert_eq!(plan_move_up(&fields, 99), None);
    assert_eq!(plan_move_up(&Vec::new(), 1), None);
}

#[test]
fn move_down_trades_orders_with_the_field_after() {
    let fields = vec![field(10, 0), field(20, 1), field(30, 2)];
    assert_eq!(
        plan_move_down(&fields, 20),
        Some(OrderSwap { first_id: 20, first_order: 2, second_id: 30, second_order: 1 })
    );
    assert_eq!(plan_move_down(&fields, 30), None);
    assert_eq!(plan_move_down(&fields, 99), None);
    assert_eq!(plan_move_down(&Vec::new(), 1), None);
}

#[test]
fn up_then_down_restores_the_listing() {
    let before = vec![field(10, 0), field(20, 3), field(30, 7), field(40, 8)];
    for id in [20, 30, 40] {
        let mut fields = before.clone();
        let up = plan_move_up(&fields, id).unwrap();
        apply(&mut fields, up);
        assert_ne!(ids(&fields), ids(&before));
        let down = plan_move_down(&fields, id).unwrap();
        apply(&mut fields, down);
        assert_eq!(ids(&fields), ids(&before));
    }
}

#[test]
fn down_then_up_restores_the_listing() {
    let before = vec![field(10, 0), field(20, 3), field(30, 7)];
    for id in [10, 20] {
        let mut fields = before.clone();
        let down = plan_move_down(&fields, id).unwrap();
        apply(&mut fields, down);
        let up = plan_move_up(&fields, id).unwrap();
        apply(&mut fields, up);
        assert_eq!(ids(&fields), ids(&before));
    }
}

#[test]
fn move_up_puts_the_field_one_place_earlier() {
    let mut fields = vec![field(10, 0), field(20, 1), field(30, 2)];
    let up = plan_move_up(&fields, 30).unwrap();
    apply(&mut fields, up);
    assert_eq!(ids(&fields), vec![(10, 0), (30, 1), (20, 2)]);
}
