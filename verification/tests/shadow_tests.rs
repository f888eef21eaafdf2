use kcam::shadow::ShadowTable;

fn s(text: &str) -> String {
    String::from(text)
}

#[test]
fn new_table_knows_nothing() {
    let table = ShadowTable::new();
    assert_eq!(table.get(&s("Power line")), None);
}

#[test]
fn set_then_get_gives_the_label() {
    let mut table = ShadowTable::new();
    table.set(s("Power line"), s("50 Hz"));
    assert_eq!(table.get(&s("Power line")), Some(s("50 Hz")));
    assert_eq!(table.get(&s("power line")), None);
}

#[test]
fn set_replaces_the_earlier_label() {
    let mut table = ShadowTable::new();
    table.set(s("Power line"), s("50 Hz"));
    table.set(s("Exposure"), s("Manual"));
    table.set(s("Power line"), s("60 Hz"));
    assert_eq!(table.get(&s("Power line")), Some(s("60 Hz")));
    assert_eq!(table.get(&s("Exposure")), Some(s("Manual")));
}

#[test]
fn forget_removes_one_name_only() {
    let mut table = ShadowTable::new();
    table.set(s("Power line"), s("50 Hz"));
    table.set(s("Exposure"), s("Manual"));
    table.forget(s("Power line"));
    table.forget(s("Never set"));
    assert_eq!(table.get(&s("Power line")), None);
    assert_eq!(table.get(&s("Never set")), None);
    assert_eq!(table.get(&s("Exposure")), Some(s("Manual")));
    table.set(s("Power line"), s("Off"));
    assert_eq!(table.get(&s("Power line")), Some(s("Off")));
}

#[test]
fn clear_forgets_everything() {
    let mut table = ShadowTable::new();
    table.set(s("Power line"), s("50 Hz"));
    table.set(s("Exposure"), s("Manual"));
    table.clear();
    assert_eq!(table.get(&s("Power line")), None);
    assert_eq!(table.get(&s("Exposure")), None);
}
