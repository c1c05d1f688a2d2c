use ignited::cmdline::{CmdlineArgs, CmdlineError};
use ignited::kmsg::KmsgBuf;
use ignited::partition::{EfiPartitionGptGuid, KernelArch, PartitionSourceBuilder};
use ignited::verbosity::VerbosityLevel;

fn parse_ok(line: &[u8]) -> (CmdlineArgs, KmsgBuf) {
    let mut kmsg = KmsgBuf::new();
    let (args, _) = CmdlineArgs::parse_cmdline(&mut kmsg, line).expect("command line should parse");
    (args, kmsg)
}

#[test]
fn minimal_root_line() {
    let (args, _) = parse_ok(b"root=UUID=e0805d9f-8660-431d-9cfd-134161a9f1c1 rootfstype=ext4 rw");
    assert_eq!(
        args.root_opts.source,
        Some(PartitionSourceBuilder::Uuid(0xe0805d9f8660431d9cfd134161a9f1c1))
    );
    assert_eq!(args.root_opts.fstype, Some(b"ext4".to_vec()));
    assert!(args.root_opts.rw);
    assert_eq!(args.init, b"/sbin/init".to_vec());
    let opts = args.root_opts.clone().build(b"/dev/sda1".to_vec());
    assert!(!opts.flags.rdonly);
    assert_eq!(opts.source, b"/dev/sda1".to_vec());
}

#[test]
fn quiet_sets_error_threshold_and_autodiscovery_runs() {
    let (mut args, kmsg) = parse_ok(b"quiet");
    assert!(kmsg.flushed);
    assert_eq!(kmsg.threshold, VerbosityLevel::Error);
    assert!(args.root_opts.source.is_none());

    // A synthetic EFI variable: a 4-byte attribute word, then the
    // UUID spelled in little-endian UTF-16.
    let uuid_text = b"e0805d9f-8660-431d-9cfd-134161a9f1c1";
    let mut data = vec![7u8, 0, 0, 0];
    for b in uuid_text {
        data.push(*b);
        data.push(0);
    }
    args.autodiscover_root_if_needed(KernelArch::X86_64, Some(&data))
        .expect("autodiscovery should succeed");
    assert_eq!(
        args.root_opts.source,
        Some(PartitionSourceBuilder::PartType(
            0x4f68bce3e8cd4db196e7fbcaf984b709,
            EfiPartitionGptGuid(0xe0805d9f8660431d9cfd134161a9f1c1)
        ))
    );
}

#[test]
fn first_verbosity_wins() {
    let (_, kmsg) = parse_ok(b"ignited.log=debug quiet");
    assert_eq!(kmsg.threshold, VerbosityLevel::Debug);
    let (_, kmsg) = parse_ok(b"quiet ignited.log=debug");
    assert_eq!(kmsg.threshold, VerbosityLevel::Error);
    let (_, kmsg) = parse_ok(b"booster.log=bogus,warn quiet");
    assert_eq!(kmsg.threshold, VerbosityLevel::Warn);
    let (_, kmsg) = parse_ok(b"booster.debug");
    assert_eq!(kmsg.threshold, VerbosityLevel::Debug);
    let (_, kmsg) = parse_ok(b"rw");
    assert_eq!(kmsg.threshold, VerbosityLevel::Info);
    let (_, kmsg) = parse_ok(b"booster.log=console");
    assert_eq!(kmsg.threshold, VerbosityLevel::Info);
}

#[test]
fn rootflags_toggle_bits_and_collect_options() {
    let (args, _) = parse_ok(b"rootflags=nosuid,nodev,discard");
    assert!(args.root_opts.flags.nosuid);
    assert!(args.root_opts.flags.nodev);
    assert!(!args.root_opts.flags.noexec);
    assert_eq!(args.root_opts.options, Some(b"discard".to_vec()));

    let (args, _) = parse_ok(b"rootflags=relatime,norelatime,opt1 rootflags=opt2");
    assert!(!args.root_opts.flags.relatime);
    assert_eq!(args.root_opts.options, Some(b"opt1,opt2".to_vec()));
}

#[test]
fn ro_and_rw_toggle_freely_last_wins() {
    let (args, _) = parse_ok(b"rw ro");
    assert!(!args.root_opts.rw);
    let (args, _) = parse_ok(b"root=/dev/sda2 rootfstype=ext4 rw ro");
    let opts = args.root_opts.build(b"/dev/sda2".to_vec());
    assert!(opts.flags.rdonly);
}

#[test]
fn bad_values_reject_the_command_line() {
    let mut kmsg = KmsgBuf::new();
    assert_eq!(
        CmdlineArgs::parse_cmdline(&mut kmsg, b"root=garbage"),
        Err(CmdlineError::BadRootValue)
    );
    assert!(!kmsg.flushed);
    let mut kmsg = KmsgBuf::new();
    assert_eq!(
        CmdlineArgs::parse_cmdline(&mut kmsg, b"resume=whatever"),
        Err(CmdlineError::BadResumeValue)
    );
    let mut kmsg = KmsgBuf::new();
    assert_eq!(
        CmdlineArgs::parse_cmdline(&mut kmsg, b"init=/sbin/\0init"),
        Err(CmdlineError::BadInitPath)
    );
}

#[test]
fn autodiscovery_failures() {
    let (mut args, _) = parse_ok(b"quiet");
    assert_eq!(
        args.autodiscover_root_if_needed(KernelArch::X86_64, None),
        Err(CmdlineError::NoRootSource)
    );
    let junk = vec![0u8, 0, 0, 0, 255, 216];
    assert_eq!(
        args.autodiscover_root_if_needed(KernelArch::X86_64, Some(&junk)),
        Err(CmdlineError::BadEfiVariable)
    );
}

#[test]
fn mod_params_collected_from_unknown_dotted_keys() {
    let (args, _) = parse_ok(b"amdgpu.dpm=0 snd-intel.power=save amdgpu.gpu_recovery=1");
    let dpm = args.mod_params.get_params(b"amdgpu").expect("amdgpu params");
    assert_eq!(dpm, &vec![b"dpm=0".to_vec(), b"gpu_recovery=1".to_vec()]);
    let snd = args.mod_params.get_params(b"snd_intel").expect("snd_intel params");
    assert_eq!(snd, &vec![b"power=save".to_vec()]);
    assert!(args.mod_params.get_params(b"none").is_none());
}

#[test]
fn resume_and_init_first_win() {
    let (args, _) = parse_ok(b"resume=LABEL=swap resume=LABEL=other init=/bin/sh init=/bin/zsh");
    assert_eq!(
        args.resume_source,
        Some(PartitionSourceBuilder::Label(b"swap".to_vec()))
    );
    assert_eq!(args.init, b"/bin/sh".to_vec());
}

#[test]
fn partition_source_forms() {
    let cases: Vec<(&[u8], PartitionSourceBuilder)> = vec![
        (
            b"UUID=e0805d9f-8660-431d-9cfd-134161a9f1c1",
            PartitionSourceBuilder::Uuid(0xe0805d9f8660431d9cfd134161a9f1c1),
        ),
        (
            b"UUID=\"e0805d9f-8660-431d-9cfd-134161a9f1c1\"",
            PartitionSourceBuilder::Uuid(0xe0805d9f8660431d9cfd134161a9f1c1),
        ),
        (
            b"/dev/disk/by-uuid/e0805d9f8660431d9cfd134161a9f1c1",
            PartitionSourceBuilder::Uuid(0xe0805d9f8660431d9cfd134161a9f1c1),
        ),
        (b"LABEL=system_a", PartitionSourceBuilder::Label(b"system_a".to_vec())),
        (b"/dev/disk/by-label/root", PartitionSourceBuilder::Label(b"root".to_vec())),
        (
            b"PARTUUID=ff5fc4ff-4ff0-4364-9ca0-f75f85b9117d",
            PartitionSourceBuilder::PartUuid(0xff5fc4ff4ff043649ca0f75f85b9117d),
        ),
        (
            b"PARTUUID=ff5fc4ff-4ff0-4364-9ca0-f75f85b9117d/PARTNROFF=2",
            PartitionSourceBuilder::PartUuidPartnroff(0xff5fc4ff4ff043649ca0f75f85b9117d, 2),
        ),
        (
            b"PARTUUID=ff5fc4ff-4ff0-4364-9ca0-f75f85b9117d/PARTNROFF=-3",
            PartitionSourceBuilder::PartUuidPartnroff(0xff5fc4ff4ff043649ca0f75f85b9117d, -3),
        ),
        (b"PARTLABEL=sysa", PartitionSourceBuilder::PartLabel(b"sysa".to_vec())),
        (b"/dev/sda1", PartitionSourceBuilder::RawDevice(b"/dev/sda1".to_vec())),
    ];
    for (text, expected) in cases {
        assert_eq!(PartitionSourceBuilder::parse(text), Some(expected), "case {:?}", text);
    }
    assert_eq!(PartitionSourceBuilder::parse(b"whatever"), None);
    assert_eq!(PartitionSourceBuilder::parse(b"UUID=nope"), None);
    assert_eq!(
        PartitionSourceBuilder::parse(b"PARTUUID=ff5fc4ff-4ff0-4364-9ca0-f75f85b9117d/PARTNROFF=x"),
        None
    );
}

#[test]
fn canonical_spellings_round_trip() {
    let sources = vec![
        PartitionSourceBuilder::Uuid(0xe0805d9f8660431d9cfd134161a9f1c1),
        PartitionSourceBuilder::Label(b"system_a".to_vec()),
        PartitionSourceBuilder::PartUuid(0xff5fc4ff4ff043649ca0f75f85b9117d),
        PartitionSourceBuilder::PartUuidPartnroff(0xff5fc4ff4ff043649ca0f75f85b9117d, -17),
        PartitionSourceBuilder::PartLabel(b"sysa".to_vec()),
        PartitionSourceBuilder::RawDevice(b"/dev/nvme0n1p2".to_vec()),
    ];
    for src in sources {
        let text = src.canonicalize();
        assert_eq!(PartitionSourceBuilder::parse(&text), Some(src.clone()), "case {:?}", src);
    }
    assert_eq!(
        PartitionSourceBuilder::Uuid(0xe0805d9f8660431d9cfd134161a9f1c1).canonicalize(),
        b"UUID=e0805d9f-8660-431d-9cfd-134161a9f1c1".to_vec()
    );
}

#[test]
fn verbosity_levels_parse_and_compare() {
    assert_eq!(VerbosityLevel::try_from_token(b"debug"), Some(VerbosityLevel::Debug));
    assert_eq!(VerbosityLevel::try_from_token(b"info"), Some(VerbosityLevel::Info));
    assert_eq!(VerbosityLevel::try_from_token(b"notice"), Some(VerbosityLevel::Notice));
    assert_eq!(VerbosityLevel::try_from_token(b"warn"), Some(VerbosityLevel::Warn));
    assert_eq!(VerbosityLevel::try_from_token(b"warning"), Some(VerbosityLevel::Warn));
    assert_eq!(VerbosityLevel::try_from_token(b"err"), Some(VerbosityLevel::Error));
    assert_eq!(VerbosityLevel::try_from_token(b"error"), Some(VerbosityLevel::Error));
    assert_eq!(VerbosityLevel::try_from_token(b"console"), None);
    assert_eq!(VerbosityLevel::try_from_token(b""), None);
    assert_eq!(VerbosityLevel::default(), VerbosityLevel::Info);
    assert_eq!(VerbosityLevel::Debug.code(), 7);
    assert_eq!(VerbosityLevel::Crit.code(), 2);
    assert!(VerbosityLevel::Error.emits_at(&VerbosityLevel::Info));
    assert!(!VerbosityLevel::Debug.emits_at(&VerbosityLevel::Info));
}

#[test]
fn parse_diagnostics_reach_the_deferred_buffer() {
    // Warnings pass an Info threshold; the note for an ignored
    // `console` value is Debug and does not.
    let mut kmsg = KmsgBuf::new();
    let (_, lines) = CmdlineArgs::parse_cmdline(
        &mut kmsg,
        b"booster.log=console,bogus,warn root boguskey a.b",
    )
    .expect("parses");
    assert_eq!(
        lines,
        vec![
            b"<4>ignited: unknown booster.log key bogus\n".to_vec(),
            b"<4>ignited: root key is empty, ignoring\n".to_vec(),
            b"<4>ignited: invalid key boguskey\n".to_vec(),
            b"<4>ignited: invalid key a.b\n".to_vec(),
        ]
    );

    // At a Debug threshold the console note and the deprecation note
    // appear too, in arrival order.
    let mut kmsg = KmsgBuf::new();
    let (_, lines) = CmdlineArgs::parse_cmdline(
        &mut kmsg,
        b"ignited.log=debug booster.log=console booster.debug ignited.log",
    )
    .expect("parses");
    assert_eq!(
        lines,
        vec![
            b"<7>ignited: booster.log=console is ignored in ignited\n".to_vec(),
            b"<7>ignited: booster.debug is deprecated: use ignited.log=debug instead.\n".to_vec(),
            b"<4>ignited: unknown ignited.log key <EMPTY>\n".to_vec(),
        ]
    );

    // Empty pieces of a booster.log list are skipped silently.
    let mut kmsg = KmsgBuf::new();
    let (_, lines) = CmdlineArgs::parse_cmdline(&mut kmsg, b"booster.log=,warn,").expect("parses");
    assert!(lines.is_empty());
}

#[test]
fn parse_returns_the_deferred_lines_framed() {
    let mut kmsg = KmsgBuf::new();
    assert_eq!(kmsg.kwarn(b"held back"), None);
    let (_, lines) = CmdlineArgs::parse_cmdline(&mut kmsg, b"quiet").expect("parses");
    // A warning does not pass the Err threshold that `quiet` set.
    assert!(lines.is_empty());
    let mut kmsg = KmsgBuf::new();
    assert_eq!(kmsg.kwarn(b"held back"), None);
    let (_, lines) = CmdlineArgs::parse_cmdline(&mut kmsg, b"rw").expect("parses");
    assert_eq!(lines, vec![b"<4>ignited: held back\n".to_vec()]);
}

#[test]
fn kmsg_buffer_defers_and_flushes_in_order() {
    let mut buf = KmsgBuf::new();
    assert_eq!(buf.kdebug(b"first"), None);
    assert_eq!(buf.kwarn(b"second"), None);
    assert_eq!(buf.log(VerbosityLevel::Crit, b"third"), None);
    let lines = buf.flush_with_level(VerbosityLevel::Warn);
    // Debug does not pass a Warn threshold; the others do, in order.
    assert_eq!(
        lines,
        vec![b"<4>ignited: second\n".to_vec(), b"<2>ignited: third\n".to_vec()]
    );
    // After the flush, entries are framed directly.
    assert_eq!(buf.kdebug(b"late"), None);
    assert_eq!(buf.kwarn(b"visible"), Some(b"<4>ignited: visible\n".to_vec()));
}
