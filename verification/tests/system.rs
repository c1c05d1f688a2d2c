use ignited::dec::{format_i64_dec, parse_i64_dec};
use ignited::flags::MountFlags;
use ignited::hex::{format_hex32, parse_hex32};
use ignited::mount::{Mount, RootOpts, TmpfsOpts};
use ignited::orchestrator::{boot_step, BootEvent, BootPhase, BootStep};
use ignited::uevent::{classify_uevent_packet, route_uevent, UeventDisposition};
use ignited::util::{
    delete_action, exit_code, is_systemd_compatible, pivot_sanity_check, DeleteAction, FatalError,
    PivotError, RAMFS_MAGIC, TMPFS_MAGIC,
};
use ignited::uuid::{format_uuid, parse_uuid};
use ignited::vconsole::{keymap_mode, K_UNICODE, K_XLATE};

#[test]
fn pseudo_filesystem_mount_defaults() {
    let dev = Mount::DevTmpfs;
    assert_eq!(dev.source(), b"dev".to_vec());
    assert_eq!(dev.target(), b"/dev".to_vec());
    assert_eq!(dev.fstype(), b"devtmpfs".to_vec());
    assert!(dev.flags().nosuid);
    assert!(!dev.flags().noexec);
    assert_eq!(dev.options(), Some(b"mode=0755".to_vec()));

    let proc_m = Mount::Proc;
    assert_eq!(proc_m.source(), b"proc".to_vec());
    assert_eq!(proc_m.target(), b"/proc".to_vec());
    let f = proc_m.flags();
    assert!(f.nosuid && f.noexec && f.nodev);
    assert_eq!(proc_m.options(), None);

    let sys = Mount::Sysfs;
    assert_eq!(sys.target(), b"/sys".to_vec());
    let efi = Mount::Efivarfs;
    assert_eq!(efi.target(), b"/sys/firmware/efi/efivars".to_vec());
    assert_eq!(efi.fstype(), b"efivarfs".to_vec());

    let mut tf = MountFlags::empty();
    tf.nosuid = true;
    tf.nodev = true;
    tf.strictatime = true;
    let run = Mount::Tmpfs(TmpfsOpts::new(
        b"run".to_vec(),
        b"/run".to_vec(),
        tf,
        Some(b"mode=755".to_vec()),
    ));
    assert_eq!(run.source(), b"run".to_vec());
    assert_eq!(run.target(), b"/run".to_vec());
    assert_eq!(run.fstype(), b"tmpfs".to_vec());
    assert!(run.flags().strictatime);
    assert_eq!(run.options(), Some(b"mode=755".to_vec()));
}

#[test]
fn root_builder_requires_source_and_fstype() {
    let b = RootOpts::builder();
    let b2 = b.try_build(b"/dev/sda1".to_vec()).expect_err("nothing set yet");
    let mut b3 = b2;
    b3.fstype(b"ext4".to_vec());
    assert!(b3.clone().try_build(b"/dev/sda1".to_vec()).is_err());
    b3.source(ignited::partition::PartitionSourceBuilder::RawDevice(b"/dev/sda1".to_vec()));
    let opts = b3.try_build(b"/dev/sda1".to_vec()).expect("complete");
    assert_eq!(opts.fstype, b"ext4".to_vec());
    assert!(opts.flags.rdonly, "read-only unless rw was given");
    let root = Mount::Root(opts);
    assert_eq!(root.target(), b"/system_root".to_vec());
    assert_eq!(root.source(), b"/dev/sda1".to_vec());
    assert_eq!(root.fstype(), b"ext4".to_vec());
}

#[test]
fn pivot_sanity_rules() {
    assert_eq!(pivot_sanity_check(1, 3, 5, 3, 3, 3, TMPFS_MAGIC), Ok(()));
    assert_eq!(pivot_sanity_check(1, 3, 5, 3, 3, 3, RAMFS_MAGIC), Ok(()));
    assert_eq!(
        pivot_sanity_check(2, 3, 5, 3, 3, 3, TMPFS_MAGIC),
        Err(PivotError::NotPid1)
    );
    assert_eq!(
        pivot_sanity_check(1, 3, 3, 3, 3, 3, TMPFS_MAGIC),
        Err(PivotError::SameDevice)
    );
    assert_eq!(
        pivot_sanity_check(1, 3, 5, 4, 3, 3, TMPFS_MAGIC),
        Err(PivotError::NotInRoot)
    );
    assert_eq!(
        pivot_sanity_check(1, 3, 5, 3, 3, 4, TMPFS_MAGIC),
        Err(PivotError::NotInRoot)
    );
    assert_eq!(
        pivot_sanity_check(1, 3, 5, 3, 3, 3, 0x58465342),
        Err(PivotError::NotRamfs)
    );
}

#[test]
fn old_root_deletion_rules() {
    assert_eq!(delete_action(5, 3, true, false), DeleteAction::Keep);
    assert_eq!(delete_action(5, 3, false, false), DeleteAction::Keep);
    assert_eq!(delete_action(3, 3, true, true), DeleteAction::RecurseOnly);
    assert_eq!(delete_action(3, 3, true, false), DeleteAction::RecurseThenRemoveDir);
    assert_eq!(delete_action(3, 3, false, false), DeleteAction::RemoveFile);
}

#[test]
fn systemd_handoff_detection() {
    assert!(is_systemd_compatible(b"/usr/lib/systemd/systemd"));
    assert!(is_systemd_compatible(b"/lib/systemd"));
    assert!(!is_systemd_compatible(b"/sbin/openrc-init"));
    assert!(!is_systemd_compatible(b"systemd"));
}

#[test]
fn exit_codes_follow_the_table() {
    assert_eq!(exit_code(FatalError::SanityCheck), 1);
    assert_eq!(exit_code(FatalError::KmsgOpen), 2);
    assert_eq!(exit_code(FatalError::PseudoFsMount), 3);
    assert_eq!(exit_code(FatalError::ConfigLoad), 4);
    assert_eq!(exit_code(FatalError::KernelVersionMismatch), 5);
    assert_eq!(exit_code(FatalError::AliasLoad), 6);
    assert_eq!(exit_code(FatalError::PivotDir), 7);
    assert_eq!(exit_code(FatalError::CmdlineParse), 8);
    assert_eq!(exit_code(FatalError::EventLoopSetup), 9);
    assert_eq!(exit_code(FatalError::UdevStart), 10);
    assert_eq!(exit_code(FatalError::ForceModuleLoad), 11);
    assert_eq!(exit_code(FatalError::VconsoleSetup), 12);
    assert_eq!(exit_code(FatalError::SysfsWalk), 13);
    assert_eq!(exit_code(FatalError::EventLoopPoll), 14);
    assert_eq!(exit_code(FatalError::ExecFailure), 101);
}

#[test]
fn boot_machine_walks_the_phases() {
    assert_eq!(
        boot_step(BootPhase::Initializing, BootEvent::KmsgOpened),
        BootStep::Advance(BootPhase::Configured)
    );
    assert_eq!(
        boot_step(BootPhase::Configured, BootEvent::CmdlineParsed),
        BootStep::Advance(BootPhase::Listening)
    );
    assert_eq!(
        boot_step(BootPhase::Listening, BootEvent::PollInterrupted),
        BootStep::Stay
    );
    assert_eq!(
        boot_step(BootPhase::Listening, BootEvent::PollTimeout),
        BootStep::Fail(FatalError::EventLoopPoll)
    );
    assert_eq!(
        boot_step(BootPhase::Listening, BootEvent::MainWake),
        BootStep::Advance(BootPhase::RootMounted)
    );
    assert_eq!(
        boot_step(BootPhase::RootMounted, BootEvent::ModulesSettled),
        BootStep::Advance(BootPhase::Switching)
    );
    assert_eq!(
        boot_step(BootPhase::Switching, BootEvent::PivotComplete),
        BootStep::Advance(BootPhase::Handoff)
    );
    assert_eq!(
        boot_step(BootPhase::Handoff, BootEvent::ExecReturned),
        BootStep::Fail(FatalError::ExecFailure)
    );
    assert_eq!(
        boot_step(BootPhase::Initializing, BootEvent::SanityFailed),
        BootStep::Fail(FatalError::SanityCheck)
    );
    assert_eq!(
        boot_step(BootPhase::Configured, BootEvent::KernelVersionMismatched),
        BootStep::Fail(FatalError::KernelVersionMismatch)
    );
}

#[test]
fn uevent_routing_rules() {
    assert_eq!(
        route_uevent(Some(b"usb:v1D6B".to_vec()), b"usb", true),
        UeventDisposition::LoadModalias(b"usb:v1D6B".to_vec())
    );
    assert_eq!(route_uevent(None, b"block", false), UeventDisposition::BlockDevice);
    assert_eq!(route_uevent(None, b"net", true), UeventDisposition::Network);
    assert_eq!(route_uevent(None, b"hidraw", true), UeventDisposition::HidrawReserved);
    assert_eq!(route_uevent(None, b"hidraw", false), UeventDisposition::Ignore);
    assert_eq!(route_uevent(None, b"tty", true), UeventDisposition::Ignore);
}

#[test]
fn uevent_datagrams_decode_and_route() {
    let mut pkt = Vec::new();
    for field in [
        "add@/devices/pci0/usb1",
        "ACTION=add",
        "DEVPATH=/devices/pci0/usb1",
        "SUBSYSTEM=usb",
        "SEQNUM=7",
        "MODALIAS=usb:v1D6Bp0002",
    ] {
        pkt.extend_from_slice(field.as_bytes());
        pkt.push(0);
    }
    assert_eq!(
        classify_uevent_packet(&pkt),
        Some(UeventDisposition::LoadModalias(b"usb:v1D6Bp0002".to_vec()))
    );

    let mut pkt = Vec::new();
    for field in [
        "add@/devices/virtual/block/loop0",
        "ACTION=add",
        "DEVPATH=/devices/virtual/block/loop0",
        "SUBSYSTEM=block",
        "SEQNUM=8",
    ] {
        pkt.extend_from_slice(field.as_bytes());
        pkt.push(0);
    }
    assert_eq!(classify_uevent_packet(&pkt), Some(UeventDisposition::BlockDevice));

    // A datagram without the required fields does not decode.
    assert_eq!(classify_uevent_packet(b"libudev\x00garbage"), None);
    assert_eq!(classify_uevent_packet(&[0xff, 0xfe]), None);
}

#[test]
fn hex_and_uuid_forms() {
    assert_eq!(
        parse_hex32(b"e0805d9f8660431d9cfd134161a9f1c1"),
        Some(0xe0805d9f8660431d9cfd134161a9f1c1)
    );
    assert_eq!(parse_hex32(b"E0805D9F8660431D9CFD134161A9F1C1"),
        Some(0xe0805d9f8660431d9cfd134161a9f1c1));
    assert_eq!(parse_hex32(b"short"), None);
    assert_eq!(parse_hex32(b"g0805d9f8660431d9cfd134161a9f1c1"), None);
    assert_eq!(format_hex32(0xff), b"000000000000000000000000000000ff".to_vec());
    assert_eq!(
        format_uuid(0xe0805d9f8660431d9cfd134161a9f1c1),
        b"e0805d9f-8660-431d-9cfd-134161a9f1c1".to_vec()
    );
    assert_eq!(
        parse_uuid(b"e0805d9f-8660-431d-9cfd-134161a9f1c1"),
        Some(0xe0805d9f8660431d9cfd134161a9f1c1)
    );
    assert_eq!(parse_uuid(b"e0805d9f+8660-431d-9cfd-134161a9f1c1"), None);
}

#[test]
fn signed_decimal_forms() {
    assert_eq!(parse_i64_dec(b"0"), Some(0));
    assert_eq!(parse_i64_dec(b"-3"), Some(-3));
    assert_eq!(parse_i64_dec(b"+42"), Some(42));
    assert_eq!(parse_i64_dec(b"9223372036854775807"), Some(i64::MAX));
    assert_eq!(parse_i64_dec(b"-9223372036854775808"), Some(i64::MIN));
    assert_eq!(parse_i64_dec(b"9223372036854775808"), None);
    assert_eq!(parse_i64_dec(b""), None);
    assert_eq!(parse_i64_dec(b"-"), None);
    assert_eq!(parse_i64_dec(b"12x"), None);
    assert_eq!(format_i64_dec(-17), b"-17".to_vec());
    assert_eq!(format_i64_dec(0), b"0".to_vec());
    assert_eq!(format_i64_dec(i64::MIN), b"-9223372036854775808".to_vec());
}

#[test]
fn systemd_state_line_spells_both_clocks() {
    assert_eq!(
        ignited::util::systemd_state_line(1700000000123456, 8123456),
        b"initrd-timestamp=1700000000123456 8123456\n".to_vec()
    );
}

#[test]
fn keymap_mode_selection() {
    let (mode, ctrl) = keymap_mode(true);
    assert_eq!(mode, K_UNICODE);
    assert_eq!(ctrl, vec![0x1b, b'%', b'G']);
    let (mode, ctrl) = keymap_mode(false);
    assert_eq!(mode, K_XLATE);
    assert_eq!(ctrl, vec![0x1b, b'%', b'@']);
}
