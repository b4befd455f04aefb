use netsim_ng::{IfaceError, IpIfaceBuilder, ProvisionAction, ProvisionEvent, Provisioner, Stage, SysOp, TUN_FLAGS};

fn name_buf(name: &str) -> Vec<u8> {
    let mut v = name.as_bytes().to_vec();
    v.resize(16, 0);
    v
}

#[test]
fn provision_with_address_runs_all_steps_in_order() {
    let b = IpIfaceBuilder::new().ipv4_addr([10, 1, 2, 3]);
    let (mut p, a) = Provisioner::start(&b).unwrap();
    assert!(matches!(a, ProvisionAction::OpenControlDevice));
    assert_eq!(p.stage(), Stage::Opening);
    assert!(matches!(p.step(ProvisionEvent::Done), ProvisionAction::SetNonBlocking));
    match p.step(ProvisionEvent::Done) {
        ProvisionAction::CreateDevice { ifr_name, flags } => {
            assert_eq!(ifr_name, name_buf("netsim"));
            assert_eq!(flags, 0x1001);
            assert_eq!(flags, TUN_FLAGS);
        },
        _ => panic!("expected the creation request"),
    }
    match p.step(ProvisionEvent::DeviceCreated(name_buf("netsim0"))) {
        ProvisionAction::AssignIpv4 { name, addr, prefix_len } => {
            assert_eq!(name, "netsim0");
            assert_eq!(addr, [10, 1, 2, 3]);
            assert_eq!(prefix_len, 8);
        },
        _ => panic!("expected the address assignment"),
    }
    match p.step(ProvisionEvent::Done) {
        ProvisionAction::BringUp { name } => assert_eq!(name, "netsim0"),
        _ => panic!("expected bringing up"),
    }
    match p.step(ProvisionEvent::Done) {
        ProvisionAction::Finished { name } => assert_eq!(name, "netsim0"),
        _ => panic!("expected the end"),
    }
    assert_eq!(p.stage(), Stage::Finished);
}

#[test]
fn provision_without_address_skips_assignment() {
    let b = IpIfaceBuilder::new().name(String::from("tun3"));
    let (mut p, _) = Provisioner::start(&b).unwrap();
    p.step(ProvisionEvent::Done);
    match p.step(ProvisionEvent::Done) {
        ProvisionAction::CreateDevice { ifr_name, .. } => assert_eq!(ifr_name, name_buf("tun3")),
        _ => panic!("expected the creation request"),
    }
    match p.step(ProvisionEvent::DeviceCreated(name_buf("tun3"))) {
        ProvisionAction::BringUp { name } => assert_eq!(name, "tun3"),
        _ => panic!("expected bringing up"),
    }
    assert!(matches!(p.step(ProvisionEvent::Done), ProvisionAction::Finished { .. }));
}

#[test]
fn provision_rejects_bad_names_before_any_call() {
    let b = IpIfaceBuilder::new().name(String::from("a\0b"));
    assert!(matches!(Provisioner::start(&b), Err(IfaceError::NameContainsNul)));
    let b = IpIfaceBuilder::new().name(String::from("a-name-far-too-long"));
    assert!(matches!(Provisioner::start(&b), Err(IfaceError::NameTooLong)));
}

fn failing_at(steps_ok: usize, code: i32) -> ProvisionAction {
    let b = IpIfaceBuilder::new().ipv4_addr([192, 168, 5, 5]);
    let (mut p, _) = Provisioner::start(&b).unwrap();
    for i in 0..steps_ok {
        if i == 2 {
            p.step(ProvisionEvent::DeviceCreated(name_buf("netsim")));
        } else {
            p.step(ProvisionEvent::Done);
        }
    }
    let a = p.step(ProvisionEvent::OsError(code));
    assert_eq!(p.stage(), Stage::Failed);
    a
}

#[test]
fn provision_tags_each_failing_call() {
    let ops = [SysOp::OpenControl, SysOp::SetNonBlocking, SysOp::CreateDevice, SysOp::AssignIpv4, SysOp::BringUp];
    for (i, op) in ops.iter().enumerate() {
        match failing_at(i, 16) {
            ProvisionAction::Failed(e) => assert_eq!(e, IfaceError::Os { op: *op, code: 16 }),
            _ => panic!("expected a failure"),
        }
    }
}

#[test]
fn provision_rejects_undecodable_kernel_name() {
    let b = IpIfaceBuilder::new();
    let (mut p, _) = Provisioner::start(&b).unwrap();
    p.step(ProvisionEvent::Done);
    p.step(ProvisionEvent::Done);
    let mut buf = vec![0xc3u8, 0x28];
    buf.resize(16, 0);
    match p.step(ProvisionEvent::DeviceCreated(buf)) {
        ProvisionAction::Failed(e) => assert_eq!(e, IfaceError::NameNotUtf8),
        _ => panic!("expected a failure"),
    }
    assert_eq!(p.stage(), Stage::Failed);
}

#[test]
fn repeated_default_requests_ask_for_the_same_device() {
    let mut requests = Vec::new();
    for _ in 0..2 {
        let (mut p, _) = Provisioner::start(&IpIfaceBuilder::new()).unwrap();
        p.step(ProvisionEvent::Done);
        match p.step(ProvisionEvent::Done) {
            ProvisionAction::CreateDevice { ifr_name, .. } => requests.push(ifr_name),
            _ => panic!("expected the creation request"),
        }
    }
    assert_eq!(requests[0], requests[1]);
    assert_eq!(requests[0], name_buf("netsim"));
}
