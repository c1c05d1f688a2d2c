use ignited::alias::{glob_match, ModAlias, ModAliases};
use ignited::config::{ConsoleConfig, IgnitedConfig, InitramfsMetadata, RuntimeConfig};
use ignited::loader::{finit_params, Completion, LoaderError, ModLoading, SpawnCmd};
use ignited::modparams::ModParams;

fn meta(
    builtin: Vec<&[u8]>,
    deps: Vec<(&[u8], Vec<&[u8]>)>,
    post: Vec<(&[u8], Vec<&[u8]>)>,
) -> InitramfsMetadata {
    let conv = |items: Vec<(&[u8], Vec<&[u8]>)>| {
        items
            .into_iter()
            .map(|(k, vs)| (k.to_vec(), vs.into_iter().map(|v| v.to_vec()).collect()))
            .collect()
    };
    InitramfsMetadata {
        kver: b"6.1.0-test".to_vec(),
        builtin: builtin.into_iter().map(|b| b.to_vec()).collect(),
        deps: conv(deps),
        opts: Vec::new(),
        post_deps: conv(post),
    }
}

fn names(spawns: &[SpawnCmd]) -> Vec<Vec<u8>> {
    spawns.iter().map(|s| s.module.clone()).collect()
}

#[test]
fn dep_chain_spawns_dependencies_first() {
    let m = meta(vec![], vec![(b"a", vec![b"b", b"c"]), (b"b", vec![b"d"])], vec![]);
    let mut l = ModLoading::new();
    let (token, spawns) = l
        .load_modules(&m, &vec![b"a".to_vec()], 16)
        .expect("load should plan");
    assert_eq!(
        names(&spawns),
        vec![b"d".to_vec(), b"b".to_vec(), b"c".to_vec(), b"a".to_vec()]
    );
    let a = spawns.iter().find(|s| s.module == b"a".to_vec()).unwrap();
    let b = spawns.iter().find(|s| s.module == b"b".to_vec()).unwrap();
    let c = spawns.iter().find(|s| s.module == b"c".to_vec()).unwrap();
    let d = spawns.iter().find(|s| s.module == b"d".to_vec()).unwrap();
    // b and c complete under a's dependency token; d under b's.
    assert_eq!(a.caller_token, token);
    assert_eq!(b.caller_token, a.deps_token);
    assert_eq!(c.caller_token, a.deps_token);
    assert_eq!(d.caller_token, b.deps_token);
}

#[test]
fn post_deps_fan_out_under_the_callers_token() {
    let m = meta(vec![], vec![], vec![(b"a", vec![b"x", b"y"])]);
    let mut l = ModLoading::new();
    let (token, spawns) = l.load_modules(&m, &vec![b"a".to_vec()], 16).unwrap();
    assert_eq!(names(&spawns), vec![b"a".to_vec()]);
    let Completion { released, spawns: post, post_dep_error } = l
        .complete_module(&m, b"a", token, 16)
        .unwrap();
    assert_eq!(released, vec![token]);
    assert_eq!(post_dep_error, None);
    assert_eq!(names(&post), vec![b"x".to_vec(), b"y".to_vec()]);
    assert!(post.iter().all(|s| s.caller_token == token));
}

#[test]
fn concurrent_duplicate_requests_load_once() {
    let m = meta(vec![], vec![], vec![]);
    let mut l = ModLoading::new();
    let (t1, s1) = l.load_modules(&m, &vec![b"a".to_vec()], 16).unwrap();
    let (t2, s2) = l.load_modules(&m, &vec![b"a".to_vec()], 16).unwrap();
    assert_eq!(names(&s1), vec![b"a".to_vec()]);
    assert!(s2.is_empty(), "the second request must not spawn another worker");
    let completion = l.complete_module(&m, b"a", t1, 16).unwrap();
    let released = completion.released;
    assert!(released.contains(&t1));
    assert!(released.contains(&t2));
    assert_eq!(released.len(), 2);
    // Once loaded, further requests are skipped entirely.
    let (_, s3) = l.load_modules(&m, &vec![b"a".to_vec()], 16).unwrap();
    assert!(s3.is_empty());
}

#[test]
fn builtin_modules_are_skipped() {
    let m = meta(vec![b"lkrg"], vec![], vec![]);
    let mut l = ModLoading::new();
    let (_, spawns) = l.load_modules(&m, &vec![b"lkrg".to_vec()], 16).unwrap();
    assert!(spawns.is_empty());
}

#[test]
fn chains_deeper_than_the_bound_are_refused() {
    let m = meta(vec![], vec![(b"a", vec![b"b"]), (b"b", vec![b"c"])], vec![]);
    let mut l = ModLoading::new();
    assert_eq!(
        l.load_modules(&m, &vec![b"a".to_vec()], 1),
        Err(LoaderError::DependencyTooDeep)
    );
}

#[test]
fn a_dependency_cycle_joins_the_pending_load() {
    // A cycle is a configuration bug; the ledger does not spawn
    // anything twice, so planning still terminates.
    let m = meta(vec![], vec![(b"a", vec![b"b"]), (b"b", vec![b"a"])], vec![]);
    let mut l = ModLoading::new();
    let (_, spawns) = l.load_modules(&m, &vec![b"a".to_vec()], 8).unwrap();
    assert_eq!(names(&spawns), vec![b"b".to_vec(), b"a".to_vec()]);
}

#[test]
fn post_dependency_chains_past_the_bound_are_reported() {
    let m = meta(
        vec![],
        vec![(b"x", vec![b"y"]), (b"y", vec![b"z"])],
        vec![(b"a", vec![b"x"])],
    );
    let mut l = ModLoading::new();
    let (token, _) = l.load_modules(&m, &vec![b"a".to_vec()], 16).unwrap();
    let completion = l.complete_module(&m, b"a", token, 1).unwrap();
    assert!(released_contains(&completion.released, token));
    assert_eq!(completion.post_dep_error, Some(LoaderError::DependencyTooDeep));
}

fn released_contains(released: &[u64], t: u64) -> bool {
    released.contains(&t)
}

#[test]
fn completing_an_unknown_module_is_refused() {
    let m = meta(vec![], vec![], vec![]);
    let mut l = ModLoading::new();
    assert!(matches!(
        l.complete_module(&m, b"ghost", 0, 16),
        Err(LoaderError::NotLoading)
    ));
}

#[test]
fn finit_parameter_string_is_joined_with_spaces() {
    let opts = b"checkpoint,fscrypt".to_vec();
    let params = vec![b"dpm=0".to_vec(), b"x=1".to_vec()];
    assert_eq!(
        finit_params(Some(&opts), Some(&params)),
        b"checkpoint,fscrypt dpm=0 x=1".to_vec()
    );
    assert_eq!(finit_params(None, None), b" ".to_vec());
    assert_eq!(finit_params(Some(&opts), None), b"checkpoint,fscrypt ".to_vec());
}

#[test]
fn glob_patterns_match_kernel_style() {
    assert!(glob_match(b"usb:*", b"usb:v1D6Bp0002"));
    assert!(glob_match(b"*", b""));
    assert!(glob_match(b"a?c", b"abc"));
    assert!(!glob_match(b"a?c", b"ac"));
    assert!(glob_match(b"pci:v*d[0-9]", b"pci:v00d7"));
    assert!(!glob_match(b"pci:v*d[0-9]", b"pci:v00dx"));
    assert!(glob_match(b"x[!a]z", b"xbz"));
    assert!(!glob_match(b"x[!a]z", b"xaz"));
    assert!(glob_match(b"a*b*c", b"aXbYbZc"));
    assert!(!glob_match(b"abc", b"abd"));
    // A class missing its bracket makes the bracket a literal byte.
    assert!(glob_match(b"a[bc", b"a[bc"));
}

#[test]
fn alias_file_parses_and_rejects_bad_lines() {
    let table = ModAliases::from_bytes(b"usb:* usbcore\npci:v00* e1000e\n").expect("parses");
    assert_eq!(table.aliases.len(), 2);
    assert_eq!(table.aliases[0], ModAlias::new(b"usb:*".to_vec(), b"usbcore".to_vec()));
    assert!(ModAliases::from_bytes(b"usb:* usbcore\nnospace\n").is_none());
    assert!(ModAliases::from_bytes(b"\n").is_none());
}

#[test]
fn alias_dedup_dispatches_once() {
    let mut table =
        ModAliases::from_bytes(b"usb:* usbcore\nusb:v1* usbfast\npci:* pcicore\n").unwrap();
    let mut out: Vec<Vec<u8>> = Vec::new();
    table.match_alias(b"usb:v1D6B", &mut out);
    assert_eq!(out, vec![b"usbcore".to_vec(), b"usbfast".to_vec()]);
    table.match_alias(b"usb:v1D6B", &mut out);
    assert_eq!(out.len(), 2, "a repeated alias adds nothing");
    table.match_alias(b"pci:v8086", &mut out);
    assert_eq!(out.len(), 3);
    assert_eq!(out[2], b"pcicore".to_vec());
}

#[test]
fn mod_params_normalize_and_observe() {
    let mut p = ModParams::new();
    p.insert(b"snd-intel", b"power", b"save");
    assert_eq!(
        p.get_params(b"snd_intel"),
        Some(&vec![b"power=save".to_vec()])
    );
    assert_eq!(
        p.get_params(b"snd-intel"),
        Some(&vec![b"power=save".to_vec()])
    );
    assert!(p.get_params(b"snd_hda").is_none());
    p.insert(b"snd_intel", b"mode", b"2");
    assert_eq!(
        p.get_params(b"snd-intel"),
        Some(&vec![b"power=save".to_vec(), b"mode=2".to_vec()])
    );
    assert_eq!(ModParams::normalize_module(b"a-b-c_d"), b"a_b_c_d".to_vec());
    assert_eq!(
        ModParams::normalize_module(&ModParams::normalize_module(b"a-b")),
        b"a_b".to_vec()
    );
}

#[test]
fn config_accessors_pass_values_through() {
    let cfg = RuntimeConfig {
        meta: meta(vec![b"lkrg"], vec![(b"a", vec![b"b"])], vec![]),
        ignited: IgnitedConfig {
            lvm: true,
            mdraid: false,
            module_force: vec![b"bus1".to_vec()],
            mount_timeout: Some(120),
        },
        con: Some(ConsoleConfig {
            utf: true,
            font_file_p: b"/f".to_vec(),
            font_map_file_p: b"/m".to_vec(),
            font_unicode_file_p: b"/u".to_vec(),
            keymap_file_p: b"/k".to_vec(),
        }),
    };
    assert_eq!(cfg.metadata().kernel_ver(), &b"6.1.0-test".to_vec());
    assert!(cfg.metadata().kernel_ver_matches(b"6.1.0-test"));
    assert!(!cfg.metadata().kernel_ver_matches(b"6.1.1"));
    assert!(cfg.metadata().is_builtin(b"lkrg"));
    assert!(!cfg.metadata().is_builtin(b"other"));
    assert_eq!(cfg.metadata().deps_of(b"a"), Some(&vec![b"b".to_vec()]));
    assert!(cfg.metadata().deps_of(b"b").is_none());
    assert!(cfg.metadata().module_builtin().len() == 1);
    assert!(cfg.metadata().module_deps().len() == 1);
    assert!(cfg.metadata().module_opts().is_empty());
    assert!(cfg.metadata().module_post_deps().is_empty());
    assert!(cfg.sysconf().has_lvm());
    assert!(!cfg.sysconf().has_mdraid());
    assert_eq!(cfg.sysconf().get_force_modules(), &vec![b"bus1".to_vec()]);
    assert_eq!(cfg.sysconf().get_mount_timeout(), Some(120));
    let no_timeout = IgnitedConfig { mount_timeout: Some(0), ..cfg.ignited.clone() };
    assert_eq!(no_timeout.get_mount_timeout(), None);
    let con = cfg.console().expect("console section present");
    assert!(con.is_utf8());
    assert_eq!(con.font_file(), &b"/f".to_vec());
    assert_eq!(con.font_map_file(), &b"/m".to_vec());
    assert_eq!(con.font_unicode_file(), &b"/u".to_vec());
    assert_eq!(con.keymap_file(), &b"/k".to_vec());
}
