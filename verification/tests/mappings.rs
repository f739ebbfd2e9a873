use porkg::format_mappings;
use porkg::helper_args;
use porkg::setgroups_deny_content;
use porkg::IdMapping;
use porkg::IdMappingTools;
use porkg::MapAction;
use porkg::MappingPlan;
use porkg::Syscall;
use porkg::WriteMappingsErrorKind;

#[test]
fn mapping_new_holds_fields() {
    let m = IdMapping::new(0, 1000, 1);
    assert_eq!(m.child_start, 0);
    assert_eq!(m.host_start, 1000);
    assert_eq!(m.length, 1);
}

#[test]
fn current_ids_map_to_root() {
    let u = IdMapping::current_user_to_root();
    assert_eq!(u.child_start, 0);
    assert_eq!(u.length, 1);
    let g = IdMapping::current_group_to_root();
    assert_eq!(g.child_start, 0);
    assert_eq!(g.length, 1);
}

#[test]
fn map_file_content_single_line() {
    let ms = vec![IdMapping::new(0, 1000, 1)];
    assert_eq!(format_mappings(&ms), b"0 1000 1\n".to_vec());
}

#[test]
fn map_file_content_two_lines() {
    let ms = vec![IdMapping::new(0, 1000, 1), IdMapping::new(1, 100000, 65536)];
    assert_eq!(format_mappings(&ms), b"0 1000 1\n1 100000 65536\n".to_vec());
}

#[test]
fn map_file_content_empty() {
    assert_eq!(format_mappings(&Vec::new()), Vec::<u8>::new());
}

#[test]
fn helper_argument_list() {
    let ms = vec![IdMapping::new(0, 1000, 1), IdMapping::new(1, 100000, 65536)];
    let args = helper_args(4242, &ms);
    let expected: Vec<Vec<u8>> = vec![
        b"4242".to_vec(),
        b"0".to_vec(),
        b"1000".to_vec(),
        b"1".to_vec(),
        b"1".to_vec(),
        b"100000".to_vec(),
        b"65536".to_vec(),
    ];
    assert_eq!(args, expected);
}

#[test]
fn setgroups_is_denied_with_exactly_deny() {
    assert_eq!(setgroups_deny_content(), b"deny".to_vec());
}

#[test]
fn write_mappings_with_tools_always_plans() {
    // With both helpers present a plan always comes back, whatever the
    // environment permits directly.
    let tools = IdMappingTools {
        uid_map: Some(String::from("/usr/bin/newuidmap")),
        gid_map: Some(String::from("/usr/bin/newgidmap")),
    };
    let users = vec![IdMapping::new(0, 424242, 1)];
    let groups = vec![IdMapping::new(0, 424242, 1)];
    let plan = Syscall::write_mappings(77, &users, &groups, tools).unwrap();

    match &plan.uid_action {
        MapAction::Direct { content } => {
            assert_eq!(content, &b"0 424242 1\n".to_vec());
        }
        MapAction::Helper { tool, args } => {
            assert_eq!(tool, "/usr/bin/newuidmap");
            let expected: Vec<Vec<u8>> = vec![
                b"77".to_vec(),
                b"0".to_vec(),
                b"424242".to_vec(),
                b"1".to_vec(),
            ];
            assert_eq!(args, &expected);
        }
    }
    assert_eq!(plan.deny_setgroups, matches!(plan.gid_action, MapAction::Direct { .. }));
}

#[test]
fn write_mappings_deduplicates() {
    let tools = IdMappingTools {
        uid_map: Some(String::from("newuidmap")),
        gid_map: Some(String::from("newgidmap")),
    };
    let users = vec![IdMapping::new(0, 424242, 1), IdMapping::new(0, 424242, 1)];
    let groups = vec![IdMapping::new(0, 424242, 1)];
    let plan = Syscall::write_mappings(1, &users, &groups, tools).unwrap();
    match &plan.uid_action {
        MapAction::Direct { content } => {
            assert_eq!(content, &b"0 424242 1\n".to_vec());
        }
        MapAction::Helper { args, .. } => {
            assert_eq!(args.len(), 4);
        }
    }
}

#[test]
fn set_ids_to_current_ids_succeeds() {
    // Setting the real, effective and saved ids to the ones already held is
    // always permitted.
    let u = IdMapping::current_user_to_root();
    let g = IdMapping::current_group_to_root();
    assert!(Syscall::set_ids(u.host_start, g.host_start).is_ok());
}

fn tools_both() -> IdMappingTools {
    IdMappingTools {
        uid_map: Some(String::from("/usr/bin/newuidmap")),
        gid_map: Some(String::from("/usr/bin/newgidmap")),
    }
}

fn no_tools() -> IdMappingTools {
    IdMappingTools { uid_map: None, gid_map: None }
}

fn plan_for(uid: u32, gid: u32, cap_setuid: bool, cap_setgid: bool, tools: IdMappingTools)
    -> Result<MappingPlan, WriteMappingsErrorKind> {
    let users = vec![IdMapping::new(0, 424242, 1)];
    let groups = vec![IdMapping::new(5, 600000, 10)];
    Syscall::plan_mappings(7, &users, &groups, tools, uid, gid, cap_setuid, cap_setgid)
        .map_err(|e| e.kind)
}

#[test]
fn plan_prefers_direct_for_root() {
    // Root writes both map files itself; setgroups is denied for the direct
    // gid write.
    let plan = plan_for(0, 0, false, false, no_tools()).unwrap();
    assert!(matches!(plan.uid_action, MapAction::Direct { .. }));
    assert!(matches!(plan.gid_action, MapAction::Direct { .. }));
    assert!(plan.deny_setgroups);
}

#[test]
fn plan_prefers_direct_for_own_single_mapping() {
    // Mapping exactly the caller's own uid once needs no privilege; the gid
    // set is not its own, so the helper carries it.
    let plan = plan_for(424242, 424242, false, false, tools_both()).unwrap();
    match &plan.uid_action {
        MapAction::Direct { content } => assert_eq!(content, &b"0 424242 1\n".to_vec()),
        MapAction::Helper { .. } => panic!("a direct uid write was owed"),
    }
    match &plan.gid_action {
        MapAction::Helper { tool, args } => {
            assert_eq!(tool, "/usr/bin/newgidmap");
            let expected: Vec<Vec<u8>> = vec![
                b"7".to_vec(),
                b"5".to_vec(),
                b"600000".to_vec(),
                b"10".to_vec(),
            ];
            assert_eq!(args, &expected);
        }
        MapAction::Direct { .. } => panic!("the gid step had no right to a direct write"),
    }
    assert!(!plan.deny_setgroups);
}

#[test]
fn plan_uses_capability_when_granted() {
    let plan = plan_for(1000, 1000, true, true, no_tools()).unwrap();
    assert!(matches!(plan.uid_action, MapAction::Direct { .. }));
    assert!(matches!(plan.gid_action, MapAction::Direct { .. }));
}

#[test]
fn plan_fails_without_any_way_to_write() {
    let kind = plan_for(1000, 1000, false, false, no_tools()).unwrap_err();
    assert_eq!(kind, WriteMappingsErrorKind::NoTools);
    // One missing helper alone fails the plan on that step.
    let one_tool = IdMappingTools {
        uid_map: Some(String::from("/usr/bin/newuidmap")),
        gid_map: None,
    };
    let kind = plan_for(1000, 1000, false, false, one_tool).unwrap_err();
    assert_eq!(kind, WriteMappingsErrorKind::NoTools);
}
