//! Mount descriptors: the pseudo filesystems mounted at boot and the
//! target root, with the flag and option rules of `rootflags=`.

use vstd::prelude::*;
use crate::bytes::{bytes_eq, push_all, spec_split, split_on};
use crate::flags::{spec_empty_flags, MountFlags};
use crate::lit;
use crate::partition::PartitionSourceBuilder;

verus! {

/// The flag and free-form option state while `rootflags=` tokens
/// apply.
pub struct OptStateView {
    pub flags: MountFlags,
    pub options: Option<Seq<u8>>,
}

/// Appending a free-form token to the option string: a comma between
/// tokens, no comma in front of the first.
pub open spec fn spec_push_option(o: Option<Seq<u8>>, tok: Seq<u8>) -> Option<Seq<u8>> {
    match o {
        Some(prev) => Some(prev + seq![44u8] + tok),
        None => Some(tok),
    }
}

/// What one `rootflags=` token does.
#[derive(Debug, Clone, PartialEq, Eq, Structural)]
pub enum OptAction {
    SetDirsync,
    ClearLazytime,
    SetLazytime,
    SetNoatime,
    ClearNoatime,
    SetNodev,
    ClearNodev,
    SetNodiratime,
    ClearNodiratime,
    SetNoexec,
    ClearNoexec,
    SetNosuid,
    ClearNosuid,
    ClearRelatime,
    SetRelatime,
    SetSilent,
    ClearStrictatime,
    SetStrictatime,
    ClearSynchronous,
    SetSynchronous,
    Ignored,
    FreeForm,
}

/// The action of one `rootflags=` token: the recognized words toggle
/// their flag, `nosymfollow` is accepted and ignored, anything else
/// joins the free-form option string.
#[verifier::opaque]
pub open spec fn spec_opt_action(tok: Seq<u8>) -> OptAction {
    if tok == lit::spec_dirsync() {
        OptAction::SetDirsync
    } else if tok == lit::spec_nolazytime() {
        OptAction::ClearLazytime
    } else if tok == lit::spec_lazytime() {
        OptAction::SetLazytime
    } else if tok == lit::spec_noatime() {
        OptAction::SetNoatime
    } else if tok == lit::spec_atime() {
        OptAction::ClearNoatime
    } else if tok == lit::spec_nodev() {
        OptAction::SetNodev
    } else if tok == lit::spec_dev() {
        OptAction::ClearNodev
    } else if tok == lit::spec_nodiratime() {
        OptAction::SetNodiratime
    } else if tok == lit::spec_diratime() {
        OptAction::ClearNodiratime
    } else if tok == lit::spec_noexec() {
        OptAction::SetNoexec
    } else if tok == lit::spec_exec() {
        OptAction::ClearNoexec
    } else if tok == lit::spec_nosuid() {
        OptAction::SetNosuid
    } else if tok == lit::spec_suid() {
        OptAction::ClearNosuid
    } else if tok == lit::spec_norelatime() {
        OptAction::ClearRelatime
    } else if tok == lit::spec_relatime() {
        OptAction::SetRelatime
    } else if tok == lit::spec_silent() {
        OptAction::SetSilent
    } else if tok == lit::spec_nostrictatime() {
        OptAction::ClearStrictatime
    } else if tok == lit::spec_strictatime() {
        OptAction::SetStrictatime
    } else if tok == lit::spec_asynchronous() {
        OptAction::ClearSynchronous
    } else if tok == lit::spec_sync() {
        OptAction::SetSynchronous
    } else if tok == lit::spec_nosymfollow() {
        OptAction::Ignored
    } else {
        OptAction::FreeForm
    }
}

/// The flag change of an action; `FreeForm` and `Ignored` change no
/// flag.
pub open spec fn spec_flags_after(f: MountFlags, a: OptAction) -> MountFlags {
    match a {
        OptAction::SetDirsync => MountFlags { dirsync: true, ..f },
        OptAction::ClearLazytime => MountFlags { lazytime: false, ..f },
        OptAction::SetLazytime => MountFlags { lazytime: true, ..f },
        OptAction::SetNoatime => MountFlags { noatime: true, ..f },
        OptAction::ClearNoatime => MountFlags { noatime: false, ..f },
        OptAction::SetNodev => MountFlags { nodev: true, ..f },
        OptAction::ClearNodev => MountFlags { nodev: false, ..f },
        OptAction::SetNodiratime => MountFlags { nodiratime: true, ..f },
        OptAction::ClearNodiratime => MountFlags { nodiratime: false, ..f },
        OptAction::SetNoexec => MountFlags { noexec: true, ..f },
        OptAction::ClearNoexec => MountFlags { noexec: false, ..f },
        OptAction::SetNosuid => MountFlags { nosuid: true, ..f },
        OptAction::ClearNosuid => MountFlags { nosuid: false, ..f },
        OptAction::ClearRelatime => MountFlags { relatime: false, ..f },
        OptAction::SetRelatime => MountFlags { relatime: true, ..f },
        OptAction::SetSilent => MountFlags { silent: true, ..f },
        OptAction::ClearStrictatime => MountFlags { strictatime: false, ..f },
        OptAction::SetStrictatime => MountFlags { strictatime: true, ..f },
        OptAction::ClearSynchronous => MountFlags { synchronous: false, ..f },
        OptAction::SetSynchronous => MountFlags { synchronous: true, ..f },
        OptAction::Ignored => f,
        OptAction::FreeForm => f,
    }
}

/// One `rootflags=` token applied to the running state.
pub open spec fn spec_apply_opt(st: OptStateView, tok: Seq<u8>) -> OptStateView {
    let a = spec_opt_action(tok);
    if a == OptAction::FreeForm {
        OptStateView { flags: st.flags, options: spec_push_option(st.options, tok) }
    } else {
        OptStateView { flags: spec_flags_after(st.flags, a), options: st.options }
    }
}

/// All tokens of a `rootflags=` value, left to right.
pub open spec fn spec_apply_opts(st: OptStateView, toks: Seq<Seq<u8>>) -> OptStateView
    decreases toks.len(),
{
    if toks.len() == 0 {
        st
    } else {
        spec_apply_opts(spec_apply_opt(st, toks[0]), toks.drop_first())
    }
}

#[verifier::rlimit(100)]
#[verifier::spinoff_prover]
pub proof fn lemma_apply_opts_snoc(st: OptStateView, toks: Seq<Seq<u8>>, tok: Seq<u8>)
    ensures
        spec_apply_opts(st, toks.push(tok)) == spec_apply_opt(spec_apply_opts(st, toks), tok),
    decreases toks.len(),
{
    let p = toks.push(tok);
    assert(p.len() == toks.len() + 1);
    assert(spec_apply_opts(st, p) == spec_apply_opts(spec_apply_opt(st, p[0]), p.drop_first()));
    if toks.len() == 0 {
        assert(p[0] == tok);
        assert(p.drop_first() =~= Seq::<Seq<u8>>::empty());
        assert(spec_apply_opts(spec_apply_opt(st, tok), p.drop_first()) == spec_apply_opt(st, tok));
        assert(spec_apply_opts(st, toks) == st);
    } else {
        assert(p[0] == toks[0]);
        assert(p.drop_first() =~= toks.drop_first().push(tok));
        lemma_apply_opts_snoc(spec_apply_opt(st, toks[0]), toks.drop_first(), tok);
        assert(spec_apply_opts(st, toks) == spec_apply_opts(
            spec_apply_opt(st, toks[0]),
            toks.drop_first(),
        ));
    }
}

/// Options for mounting a `tmpfs`.
#[derive(Debug, Clone, PartialEq, Eq)]
pub struct TmpfsOpts {
    pub source: Vec<u8>,
    pub target: Vec<u8>,
    pub flags: MountFlags,
    pub options: Option<Vec<u8>>,
}

impl TmpfsOpts {
    pub fn new(source: Vec<u8>, target: Vec<u8>, flags: MountFlags, options: Option<Vec<u8>>) -> (r:
        TmpfsOpts)
        ensures
            r.source == source,
            r.target == target,
            r.flags == flags,
            r.options == options,
    {
        TmpfsOpts { source, target, flags, options }
    }
}

/// Everything needed to mount the target root: the resolved device
/// path, the filesystem type, the flags and the free-form options.
#[derive(Debug, Clone, PartialEq, Eq)]
pub struct RootOpts {
    pub source: Vec<u8>,
    pub fstype: Vec<u8>,
    pub flags: MountFlags,
    pub options: Option<Vec<u8>>,
}

impl RootOpts {
    /// A fresh builder with nothing set.
    pub fn builder() -> (r: RootOptsBuilder)
        ensures
            r.source is None,
            r.fstype is None,
            r.rw == false,
            r.flags == spec_empty_flags(),
            r.options is None,
    {
        RootOptsBuilder {
            source: None,
            fstype: None,
            rw: false,
            flags: MountFlags::empty(),
            options: None,
        }
    }
}

/// Accumulates the root mount settings as command line tokens arrive.
/// First `root=` and first `rootfstype=` win; `ro` / `rw` toggle
/// freely; `rootflags=` tokens accumulate.
#[derive(Debug, Clone, PartialEq, Eq)]
pub struct RootOptsBuilder {
    pub source: Option<PartitionSourceBuilder>,
    pub fstype: Option<Vec<u8>>,
    pub rw: bool,
    pub flags: MountFlags,
    pub options: Option<Vec<u8>>,
}

impl RootOptsBuilder {
    /// Set the partition source, unless one is already set.
    pub fn source(&mut self, source: PartitionSourceBuilder)
        ensures
            final(self).source == if old(self).source is None {
                Some(source)
            } else {
                old(self).source
            },
            final(self).fstype == old(self).fstype,
            final(self).rw == old(self).rw,
            final(self).flags == old(self).flags,
            final(self).options == old(self).options,
    {
        if self.source.is_none() {
            self.source = Some(source);
        }
    }

    pub fn get_source(&self) -> (r: Option<&PartitionSourceBuilder>)
        ensures
            match r {
                Some(s) => self.source == Some(*s),
                None => self.source is None,
            },
    {
        self.source.as_ref()
    }

    /// Set the filesystem type, unless one is already set.
    pub fn fstype(&mut self, fstype: Vec<u8>)
        ensures
            final(self).fstype == if old(self).fstype is None {
                Some(fstype)
            } else {
                old(self).fstype
            },
            final(self).source == old(self).source,
            final(self).rw == old(self).rw,
            final(self).flags == old(self).flags,
            final(self).options == old(self).options,
    {
        if self.fstype.is_none() {
            self.fstype = Some(fstype);
        }
    }

    pub fn get_fstype(&self) -> (r: Option<&Vec<u8>>)
        ensures
            match r {
                Some(f) => self.fstype == Some(*f),
                None => self.fstype is None,
            },
    {
        self.fstype.as_ref()
    }

    /// Mount the root read-only.
    pub fn ro(&mut self)
        ensures
            *final(self) == (RootOptsBuilder { rw: false, ..*old(self) }),
    {
        self.rw = false;
    }

    /// Mount the root writable.
    pub fn rw(&mut self)
        ensures
            *final(self) == (RootOptsBuilder { rw: true, ..*old(self) }),
    {
        self.rw = true;
    }

    /// Apply a comma-separated `rootflags=` value.
    pub fn add_opts(&mut self, opts: &[u8])
        ensures
            ({
                let st = spec_apply_opts(
                    OptStateView {
                        flags: old(self).flags,
                        options: match old(self).options {
                            Some(o) => Some(o@),
                            None => None,
                        },
                    },
                    spec_split(opts@, 44),
                );
                &&& final(self).flags == st.flags
                &&& (match final(self).options {
                    Some(o) => st.options == Some(o@),
                    None => st.options is None,
                })
            }),
            final(self).source == old(self).source,
            final(self).fstype == old(self).fstype,
            final(self).rw == old(self).rw,
    {
        let toks = split_on(opts, 44);
        let ghost all = spec_split(opts@, 44);
        let ghost st0 = OptStateView {
            flags: self.flags,
            options: match self.options {
                Some(ref o) => Some(o@),
                None => None,
            },
        };
        let mut i: usize = 0;
        while i < toks.len()
            invariant
                i <= toks@.len(),
                all == toks.deep_view(),
                toks@.len() == all.len(),
                ({
                    let st = spec_apply_opts(st0, all.subrange(0, i as int));
                    &&& self.flags == st.flags
                    &&& (match self.options {
                        Some(ref o) => st.options == Some(o@),
                        None => st.options is None,
                    })
                }),
                self.source == old(self).source,
                self.fstype == old(self).fstype,
                self.rw == old(self).rw,
            decreases toks@.len() - i,
        {
            proof {
                assert(all.subrange(0, i + 1) =~= all.subrange(0, i as int).push(all[i as int]));
                lemma_apply_opts_snoc(st0, all.subrange(0, i as int), all[i as int]);
            }
            let tok: &[u8] = toks[i].as_slice();
            assert(tok@ == all[i as int]);
            self.apply_opt(tok);
            i += 1;
        }
        proof {
            assert(all.subrange(0, all.len() as int) =~= all);
        }
    }

    /// The action of one `rootflags=` token.
    #[verifier::rlimit(50)]
    fn classify_opt(tok: &[u8]) -> (a: OptAction)
        ensures
            a == spec_opt_action(tok@),
    {
        proof {
            reveal(spec_opt_action);
        }
        if bytes_eq(tok, lit::lit_dirsync().as_slice()) {
            OptAction::SetDirsync
        } else if bytes_eq(tok, lit::lit_nolazytime().as_slice()) {
            OptAction::ClearLazytime
        } else if bytes_eq(tok, lit::lit_lazytime().as_slice()) {
            OptAction::SetLazytime
        } else if bytes_eq(tok, lit::lit_noatime().as_slice()) {
            OptAction::SetNoatime
        } else if bytes_eq(tok, lit::lit_atime().as_slice()) {
            OptAction::ClearNoatime
        } else if bytes_eq(tok, lit::lit_nodev().as_slice()) {
            OptAction::SetNodev
        } else if bytes_eq(tok, lit::lit_dev().as_slice()) {
            OptAction::ClearNodev
        } else if bytes_eq(tok, lit::lit_nodiratime().as_slice()) {
            OptAction::SetNodiratime
        } else if bytes_eq(tok, lit::lit_diratime().as_slice()) {
            OptAction::ClearNodiratime
        } else if bytes_eq(tok, lit::lit_noexec().as_slice()) {
            OptAction::SetNoexec
        } else if bytes_eq(tok, lit::lit_exec().as_slice()) {
            OptAction::ClearNoexec
        } else if bytes_eq(tok, lit::lit_nosuid().as_slice()) {
            OptAction::SetNosuid
        } else if bytes_eq(tok, lit::lit_suid().as_slice()) {
            OptAction::ClearNosuid
        } else if bytes_eq(tok, lit::lit_norelatime().as_slice()) {
            OptAction::ClearRelatime
        } else if bytes_eq(tok, lit::lit_relatime().as_slice()) {
            OptAction::SetRelatime
        } else if bytes_eq(tok, lit::lit_silent().as_slice()) {
            OptAction::SetSilent
        } else if bytes_eq(tok, lit::lit_nostrictatime().as_slice()) {
            OptAction::ClearStrictatime
        } else if bytes_eq(tok, lit::lit_strictatime().as_slice()) {
            OptAction::SetStrictatime
        } else if bytes_eq(tok, lit::lit_asynchronous().as_slice()) {
            OptAction::ClearSynchronous
        } else if bytes_eq(tok, lit::lit_sync().as_slice()) {
            OptAction::SetSynchronous
        } else if bytes_eq(tok, lit::lit_nosymfollow().as_slice()) {
            OptAction::Ignored
        } else {
            OptAction::FreeForm
        }
    }

    /// The flag change of an action.
    fn flags_after(f: MountFlags, a: OptAction) -> (r: MountFlags)
        ensures
            r == spec_flags_after(f, a),
    {
        let mut r = f;
        match a {
            OptAction::SetDirsync => r.dirsync = true,
            OptAction::ClearLazytime => r.lazytime = false,
            OptAction::SetLazytime => r.lazytime = true,
            OptAction::SetNoatime => r.noatime = true,
            OptAction::ClearNoatime => r.noatime = false,
            OptAction::SetNodev => r.nodev = true,
            OptAction::ClearNodev => r.nodev = false,
            OptAction::SetNodiratime => r.nodiratime = true,
            OptAction::ClearNodiratime => r.nodiratime = false,
            OptAction::SetNoexec => r.noexec = true,
            OptAction::ClearNoexec => r.noexec = false,
            OptAction::SetNosuid => r.nosuid = true,
            OptAction::ClearNosuid => r.nosuid = false,
            OptAction::ClearRelatime => r.relatime = false,
            OptAction::SetRelatime => r.relatime = true,
            OptAction::SetSilent => r.silent = true,
            OptAction::ClearStrictatime => r.strictatime = false,
            OptAction::SetStrictatime => r.strictatime = true,
            OptAction::ClearSynchronous => r.synchronous = false,
            OptAction::SetSynchronous => r.synchronous = true,
            OptAction::Ignored => {},
            OptAction::FreeForm => {},
        }
        r
    }

    /// Apply one `rootflags=` token.
    fn apply_opt(&mut self, tok: &[u8])
        ensures
            ({
                let st = spec_apply_opt(
                    OptStateView {
                        flags: old(self).flags,
                        options: match old(self).options {
                            Some(o) => Some(o@),
                            None => None,
                        },
                    },
                    tok@,
                );
                &&& final(self).flags == st.flags
                &&& (match final(self).options {
                    Some(o) => st.options == Some(o@),
                    None => st.options is None,
                })
            }),
            final(self).source == old(self).source,
            final(self).fstype == old(self).fstype,
            final(self).rw == old(self).rw,
    {
        let a = Self::classify_opt(tok);
        let free = match a {
            OptAction::FreeForm => true,
            _ => false,
        };
        if free {
            let mut joined: Vec<u8> = Vec::new();
            let replaced = match &self.options {
                Some(prev) => {
                    push_all(&mut joined, prev.as_slice());
                    joined.push(44);
                    push_all(&mut joined, tok);
                    true
                },
                None => {
                    push_all(&mut joined, tok);
                    false
                },
            };
            if replaced {
                proof {
                    assert(joined@ =~= old(self).options.unwrap()@ + seq![44u8] + tok@);
                }
            } else {
                proof {
                    assert(joined@ =~= tok@);
                }
            }
            self.options = Some(joined);
        } else {
            self.flags = Self::flags_after(self.flags, a);
        }
    }

    /// Build the final root mount settings around the resolved device
    /// path, if a source and a filesystem type were both given; hand
    /// the builder back unchanged otherwise. The read-only bit
    /// reflects `ro` / `rw`.
    pub fn try_build(self, device: Vec<u8>) -> (r: Result<RootOpts, RootOptsBuilder>)
        ensures
            match r {
                Ok(o) => {
                    &&& self.source is Some
                    &&& self.fstype is Some
                    &&& o.source == device
                    &&& Some(o.fstype) == self.fstype
                    &&& o.flags == (MountFlags { rdonly: !self.rw, ..self.flags })
                    &&& o.options == self.options
                },
                Err(b) => {
                    &&& (self.source is None || self.fstype is None)
                    &&& b == self
                },
            },
    {
        if self.source.is_some() {
            match self.fstype {
                Some(fstype) => {
                    let mut flags = self.flags;
                    flags.rdonly = !self.rw;
                    Ok(RootOpts { source: device, fstype, flags, options: self.options })
                },
                None => Err(
                    RootOptsBuilder {
                        source: self.source,
                        fstype: None,
                        rw: self.rw,
                        flags: self.flags,
                        options: self.options,
                    },
                ),
            }
        } else {
            Err(self)
        }
    }

    /// As `try_build`, for a builder known to be complete.
    pub fn build(self, device: Vec<u8>) -> (o: RootOpts)
        requires
            self.source is Some,
            self.fstype is Some,
        ensures
            o.source == device,
            Some(o.fstype) == self.fstype,
            o.flags == (MountFlags { rdonly: !self.rw, ..self.flags }),
            o.options == self.options,
    {
        match self.try_build(device) {
            Ok(o) => o,
            Err(_) => {
                proof {
                    assert(false);
                }
                RootOpts {
                    source: Vec::new(),
                    fstype: Vec::new(),
                    flags: MountFlags::empty(),
                    options: None,
                }
            },
        }
    }
}

/// The mounts this init performs, each with its fixed defaults.
#[derive(Debug, Clone, PartialEq, Eq)]
pub enum Mount {
    DevTmpfs,
    Proc,
    Sysfs,
    Tmpfs(TmpfsOpts),
    Efivarfs,
    Root(RootOpts),
}

/// The mount source field of each descriptor.
pub open spec fn spec_mount_source(m: Mount) -> Seq<u8> {
    match m {
        Mount::DevTmpfs => lit::spec_dev(),
        Mount::Proc => lit::spec_proc_fs(),
        Mount::Sysfs => lit::spec_sys_fs(),
        Mount::Tmpfs(t) => t.source@,
        Mount::Efivarfs => lit::spec_efivarfs(),
        Mount::Root(o) => o.source@,
    }
}

/// The mount target of each descriptor.
pub open spec fn spec_mount_target(m: Mount) -> Seq<u8> {
    match m {
        Mount::DevTmpfs => lit::spec_dev_mnt(),
        Mount::Proc => lit::spec_proc_mnt(),
        Mount::Sysfs => lit::spec_sys_mnt(),
        Mount::Tmpfs(t) => t.target@,
        Mount::Efivarfs => lit::spec_efivars_mnt(),
        Mount::Root(_) => lit::spec_system_root(),
    }
}

/// The filesystem type of each descriptor.
pub open spec fn spec_mount_fstype(m: Mount) -> Seq<u8> {
    match m {
        Mount::DevTmpfs => lit::spec_devtmpfs(),
        Mount::Proc => lit::spec_proc_fs(),
        Mount::Sysfs => lit::spec_sysfs(),
        Mount::Tmpfs(_) => lit::spec_tmpfs(),
        Mount::Efivarfs => lit::spec_efivarfs(),
        Mount::Root(o) => o.fstype@,
    }
}

/// The flags of each descriptor: `devtmpfs` is `NOSUID`, the other
/// pseudo filesystems `NOSUID|NOEXEC|NODEV`.
pub open spec fn spec_mount_flags(m: Mount) -> MountFlags {
    match m {
        Mount::DevTmpfs => MountFlags { nosuid: true, ..spec_empty_flags() },
        Mount::Proc => MountFlags { nosuid: true, noexec: true, nodev: true, ..spec_empty_flags() },
        Mount::Sysfs => MountFlags { nosuid: true, noexec: true, nodev: true, ..spec_empty_flags() },
        Mount::Tmpfs(t) => t.flags,
        Mount::Efivarfs => MountFlags {
            nosuid: true,
            noexec: true,
            nodev: true,
            ..spec_empty_flags()
        },
        Mount::Root(o) => o.flags,
    }
}

/// The option string of each descriptor: `devtmpfs` gets `mode=0755`.
pub open spec fn spec_mount_options(m: Mount) -> Option<Seq<u8>> {
    match m {
        Mount::DevTmpfs => Some(lit::spec_mode0755()),
        Mount::Proc => None,
        Mount::Sysfs => None,
        Mount::Tmpfs(t) => match t.options {
            Some(o) => Some(o@),
            None => None,
        },
        Mount::Efivarfs => None,
        Mount::Root(o) => match o.options {
            Some(op) => Some(op@),
            None => None,
        },
    }
}

impl Mount {
    pub fn source(&self) -> (r: Vec<u8>)
        ensures
            r@ == spec_mount_source(*self),
    {
        match self {
            Mount::DevTmpfs => lit::lit_dev(),
            Mount::Proc => lit::lit_proc_fs(),
            Mount::Sysfs => lit::lit_sys_fs(),
            Mount::Tmpfs(t) => crate::bytes::sub_vec(t.source.as_slice(), 0, t.source.len()),
            Mount::Efivarfs => lit::lit_efivarfs(),
            Mount::Root(o) => crate::bytes::sub_vec(o.source.as_slice(), 0, o.source.len()),
        }
    }

    pub fn target(&self) -> (r: Vec<u8>)
        ensures
            r@ == spec_mount_target(*self),
    {
        match self {
            Mount::DevTmpfs => lit::lit_dev_mnt(),
            Mount::Proc => lit::lit_proc_mnt(),
            Mount::Sysfs => lit::lit_sys_mnt(),
            Mount::Tmpfs(t) => crate::bytes::sub_vec(t.target.as_slice(), 0, t.target.len()),
            Mount::Efivarfs => lit::lit_efivars_mnt(),
            Mount::Root(_) => lit::lit_system_root(),
        }
    }

    pub fn fstype(&self) -> (r: Vec<u8>)
        ensures
            r@ == spec_mount_fstype(*self),
    {
        match self {
            Mount::DevTmpfs => lit::lit_devtmpfs(),
            Mount::Proc => lit::lit_proc_fs(),
            Mount::Sysfs => lit::lit_sysfs(),
            Mount::Tmpfs(_) => lit::lit_tmpfs(),
            Mount::Efivarfs => lit::lit_efivarfs(),
            Mount::Root(o) => crate::bytes::sub_vec(o.fstype.as_slice(), 0, o.fstype.len()),
        }
    }

    pub fn flags(&self) -> (r: MountFlags)
        ensures
            r == spec_mount_flags(*self),
    {
        match self {
            Mount::DevTmpfs => MountFlags::nosuid_only(),
            Mount::Proc => MountFlags::nosuid_noexec_nodev(),
            Mount::Sysfs => MountFlags::nosuid_noexec_nodev(),
            Mount::Tmpfs(t) => t.flags,
            Mount::Efivarfs => MountFlags::nosuid_noexec_nodev(),
            Mount::Root(o) => o.flags,
        }
    }

    pub fn options(&self) -> (r: Option<Vec<u8>>)
        ensures
            (match r {
                Some(o) => spec_mount_options(*self) == Some(o@),
                None => spec_mount_options(*self) is None,
            }),
    {
        match self {
            Mount::DevTmpfs => Some(lit::lit_mode0755()),
            Mount::Proc => None,
            Mount::Sysfs => None,
            Mount::Tmpfs(t) => match &t.options {
                Some(o) => Some(crate::bytes::sub_vec(o.as_slice(), 0, o.len())),
                None => None,
            },
            Mount::Efivarfs => None,
            Mount::Root(o) => match &o.options {
                Some(op) => Some(crate::bytes::sub_vec(op.as_slice(), 0, op.len())),
                None => None,
            },
        }
    }
}

} // verus!
