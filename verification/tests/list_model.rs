use bolt::list_model::ListModel;

#[test]
fn reset_and_populate_preserves_source_order() {
    let mut model: ListModel<u64> = ListModel::new();
    model.reset_and_populate(vec![10, 20, 30]);
    assert_eq!(model.len(), 3);
    assert_eq!(model.get(0), Some(&10));
    assert_eq!(model.get(1), Some(&20));
    assert_eq!(model.get(2), Some(&30));
    model.reset_and_populate(vec![]);
    assert_eq!(model.len(), 0);
    assert_eq!(model.get(0), None);
}

#[test]
fn append_keeps_prior_positions() {
    let mut model: ListModel<u64> = ListModel::new();
    model.append(1);
    model.append(2);
    model.append(3);
    assert_eq!(model.get(0), Some(&1));
    assert_eq!(model.get(1), Some(&2));
    assert_eq!(model.get(2), Some(&3));
    assert_eq!(model.len(), 3);
}

#[test]
fn get_past_the_end_is_nothing() {
    let mut model: ListModel<u64> = ListModel::new();
    assert_eq!(model.get(0), None);
    model.append(5);
    assert_eq!(model.get(1), None);
    assert_eq!(model.get(usize::MAX), None);
}

#[test]
fn reset_replaces_previous_contents() {
    let mut model: ListModel<u64> = ListModel::new();
    model.reset_and_populate(vec![1, 2]);
    model.reset_and_populate(vec![9]);
    assert_eq!(model.len(), 1);
    assert_eq!(model.get(0), Some(&9));
}
