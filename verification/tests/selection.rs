use graphics::error::InitError;
use graphics::selection::{
    class_rank, find_graphics_family, select_physical_device, DeviceCandidate, DeviceClass,
    QueueFamilyInfo,
};

fn cand(class: DeviceClass, has_graphics_queue: bool) -> DeviceCandidate {
    DeviceCandidate {
        class,
        has_graphics_queue,
    }
}

#[test]
fn discrete_beats_integrated_regardless_of_order() {
    let a = vec![
        cand(DeviceClass::Integrated, true),
        cand(DeviceClass::Discrete, true),
    ];
    assert_eq!(select_physical_device(&a).unwrap(), 1);

    let b = vec![
        cand(DeviceClass::Discrete, true),
        cand(DeviceClass::Integrated, true),
    ];
    assert_eq!(select_physical_device(&b).unwrap(), 0);
}

#[test]
fn cpu_then_discrete_selects_discrete() {
    let cands = vec![cand(DeviceClass::Cpu, true), cand(DeviceClass::Discrete, true)];
    assert_eq!(select_physical_device(&cands).unwrap(), 1);
}

#[test]
fn same_class_selects_lowest_index() {
    let cands = vec![
        cand(DeviceClass::Integrated, true),
        cand(DeviceClass::Integrated, true),
        cand(DeviceClass::Integrated, true),
    ];
    assert_eq!(select_physical_device(&cands).unwrap(), 0);
}

#[test]
fn same_class_skips_non_graphics_candidates() {
    let cands = vec![
        cand(DeviceClass::Integrated, false),
        cand(DeviceClass::Integrated, true),
    ];
    assert_eq!(select_physical_device(&cands).unwrap(), 1);
}

#[test]
fn empty_enumeration_fails() {
    let cands: Vec<DeviceCandidate> = Vec::new();
    assert!(matches!(
        select_physical_device(&cands),
        Err(InitError::NoSuitableDevice)
    ));
}

#[test]
fn no_graphics_capable_candidate_fails() {
    let cands = vec![cand(DeviceClass::Discrete, false), cand(DeviceClass::Cpu, false)];
    assert!(matches!(
        select_physical_device(&cands),
        Err(InitError::NoSuitableDevice)
    ));
}

#[test]
fn discrete_without_graphics_loses_to_integrated() {
    let cands = vec![
        cand(DeviceClass::Discrete, false),
        cand(DeviceClass::Integrated, true),
    ];
    assert_eq!(select_physical_device(&cands).unwrap(), 1);
}

#[test]
fn class_ranks_follow_the_preference_order() {
    assert!(class_rank(DeviceClass::Discrete) < class_rank(DeviceClass::Integrated));
    assert!(class_rank(DeviceClass::Integrated) < class_rank(DeviceClass::Virtual));
    assert!(class_rank(DeviceClass::Virtual) < class_rank(DeviceClass::Cpu));
    // CPU and other hardware form one class; the index breaks their ties
    assert_eq!(class_rank(DeviceClass::Cpu), class_rank(DeviceClass::Other));
}

#[test]
fn cpu_and_other_tie_break_by_enumeration_index() {
    let a = vec![cand(DeviceClass::Other, true), cand(DeviceClass::Cpu, true)];
    assert_eq!(select_physical_device(&a).unwrap(), 0);

    let b = vec![cand(DeviceClass::Cpu, true), cand(DeviceClass::Other, true)];
    assert_eq!(select_physical_device(&b).unwrap(), 0);
}

#[test]
fn virtual_beats_cpu_and_other() {
    let cands = vec![
        cand(DeviceClass::Other, true),
        cand(DeviceClass::Cpu, true),
        cand(DeviceClass::Virtual, true),
    ];
    assert_eq!(select_physical_device(&cands).unwrap(), 2);
}

#[test]
fn first_graphics_family_is_picked() {
    let families = vec![
        QueueFamilyInfo {
            supports_graphics: false,
        },
        QueueFamilyInfo {
            supports_graphics: true,
        },
        QueueFamilyInfo {
            supports_graphics: true,
        },
    ];
    assert_eq!(find_graphics_family(&families).unwrap(), 1);
}

#[test]
fn no_graphics_family_fails() {
    let families = vec![QueueFamilyInfo {
        supports_graphics: false,
    }];
    assert!(matches!(
        find_graphics_family(&families),
        Err(InitError::NoGraphicsQueue)
    ));
}
