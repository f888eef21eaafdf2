use kcam::catalog::get_descriptors;
use kcam::control::ControlDescriptor;
use kcam::control::ControlKind;

fn control(id: u32, kind: ControlKind) -> ControlDescriptor {
    ControlDescriptor {
        id,
        name: format!("control {}", id),
        kind,
        minimum: 0,
        maximum: 1,
        step: 1,
        default: 0,
        items: Vec::new(),
    }
}

fn ids(catalog: &Vec<ControlDescriptor>) -> Vec<u32> {
    let mut out = Vec::new();
    for d in catalog {
        out.push(d.id);
    }
    out
}

#[test]
fn failed_query_gives_an_empty_catalog() {
    assert_eq!(get_descriptors(None), Vec::new());
    assert_eq!(get_descriptors(Some(Vec::new())), Vec::new());
}

#[test]
fn catalog_is_sorted_by_kind_and_stable() {
    let reported = vec![
        control(1, ControlKind::Menu),
        control(2, ControlKind::Unsupported),
        control(3, ControlKind::Integer),
        control(4, ControlKind::Boolean),
        control(5, ControlKind::Integer),
        control(6, ControlKind::Menu),
        control(7, ControlKind::Boolean),
        control(8, ControlKind::Unsupported),
        control(9, ControlKind::Integer),
    ];
    let catalog = get_descriptors(Some(reported));
    assert_eq!(ids(&catalog), vec![3, 5, 9, 4, 7, 1, 6, 2, 8]);
}

#[test]
fn catalog_keeps_unsupported_controls_and_changes_nothing() {
    let reported = vec![control(2, ControlKind::Unsupported), control(1, ControlKind::Integer)];
    let catalog = get_descriptors(Some(reported));
    assert_eq!(catalog.len(), 2);
    assert_eq!(catalog[0], control(1, ControlKind::Integer));
    assert_eq!(catalog[1], control(2, ControlKind::Unsupported));
}

#[test]
fn sorted_report_stays_as_it_is() {
    let reported = vec![
        control(1, ControlKind::Integer),
        control(2, ControlKind::Boolean),
        control(3, ControlKind::Menu),
    ];
    let catalog = get_descriptors(Some(reported));
    assert_eq!(ids(&catalog), vec![1, 2, 3]);
}

#[test]
fn type_codes_map_to_kinds() {
    assert_eq!(ControlKind::from_type_code(1), ControlKind::Integer);
    assert_eq!(ControlKind::from_type_code(2), ControlKind::Boolean);
    assert_eq!(ControlKind::from_type_code(3), ControlKind::Menu);
    assert_eq!(ControlKind::from_type_code(0), ControlKind::Unsupported);
    assert_eq!(ControlKind::from_type_code(4), ControlKind::Unsupported);
    assert_eq!(ControlKind::from_type_code(9), ControlKind::Unsupported);
    assert_eq!(ControlKind::from_type_code(0x0100), ControlKind::Unsupported);
    assert!(ControlKind::Integer.is_hardware_backed());
    assert!(ControlKind::Boolean.is_hardware_backed());
    assert!(!ControlKind::Menu.is_hardware_backed());
    assert!(!ControlKind::Unsupported.is_hardware_backed());
}
