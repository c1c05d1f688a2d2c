//! The runtime configuration: what the configuration file provides,
//! held as plain values. The process around the library reads and
//! deserializes the file and hands the values in.

use vstd::prelude::*;
use crate::bytes::bytes_eq;
use crate::modparams::{spec_lookup, lemma_lookup_at, lemma_lookup_none};

verus! {

/// The metadata section: the kernel the image was built for and the
/// module relations.
#[derive(Debug, Clone, PartialEq, Eq)]
pub struct InitramfsMetadata {
    pub kver: Vec<u8>,
    pub builtin: Vec<Vec<u8>>,
    pub deps: Vec<(Vec<u8>, Vec<Vec<u8>>)>,
    pub opts: Vec<(Vec<u8>, Vec<u8>)>,
    pub post_deps: Vec<(Vec<u8>, Vec<Vec<u8>>)>,
}

/// An association list of module names to module name lists, as a
/// sequence of pairs.
pub open spec fn spec_dep_map(es: Seq<(Vec<u8>, Vec<Vec<u8>>)>) -> Seq<(Seq<u8>, Seq<Seq<u8>>)> {
    Seq::new(es.len(), |i: int| (es[i].0@, es[i].1.deep_view()))
}

impl InitramfsMetadata {
    /// The kernel version this image was built for.
    pub fn kernel_ver(&self) -> (r: &Vec<u8>)
        ensures
            r@ == self.kver@,
    {
        &self.kver
    }

    /// The modules already built into the kernel.
    pub fn module_builtin(&self) -> (r: &Vec<Vec<u8>>)
        ensures
            r.deep_view() == self.builtin.deep_view(),
    {
        &self.builtin
    }

    /// The pre-dependencies of each module.
    pub fn module_deps(&self) -> (r: &Vec<(Vec<u8>, Vec<Vec<u8>>)>)
        ensures
            spec_dep_map(r@) == spec_dep_map(self.deps@),
    {
        &self.deps
    }

    /// The option string of each module.
    pub fn module_opts(&self) -> (r: &Vec<(Vec<u8>, Vec<u8>)>)
        ensures
            r@ == self.opts@,
    {
        &self.opts
    }

    /// The post-dependencies of each module.
    pub fn module_post_deps(&self) -> (r: &Vec<(Vec<u8>, Vec<Vec<u8>>)>)
        ensures
            spec_dep_map(r@) == spec_dep_map(self.post_deps@),
    {
        &self.post_deps
    }

    /// Whether the image was built for the booted kernel.
    pub fn kernel_ver_matches(&self, booted: &[u8]) -> (r: bool)
        ensures
            r == (self.kver@ == booted@),
    {
        bytes_eq(self.kver.as_slice(), booted)
    }

    /// The pre-dependencies of one module, if it has any.
    pub fn deps_of(&self, module: &[u8]) -> (r: Option<&Vec<Vec<u8>>>)
        ensures
            match r {
                Some(ds) => spec_lookup(spec_dep_map(self.deps@), module@) == Some(ds.deep_view()),
                None => spec_lookup(spec_dep_map(self.deps@), module@) is None,
            },
    {
        lookup_dep_list(&self.deps, module)
    }

    /// The post-dependencies of one module, if it has any.
    pub fn post_deps_of(&self, module: &[u8]) -> (r: Option<&Vec<Vec<u8>>>)
        ensures
            match r {
                Some(ds) => spec_lookup(spec_dep_map(self.post_deps@), module@) == Some(
                    ds.deep_view(),
                ),
                None => spec_lookup(spec_dep_map(self.post_deps@), module@) is None,
            },
    {
        lookup_dep_list(&self.post_deps, module)
    }

    /// Whether a module is built into the kernel.
    pub fn is_builtin(&self, module: &[u8]) -> (r: bool)
        ensures
            r == self.builtin.deep_view().contains(module@),
    {
        let mut i: usize = 0;
        while i < self.builtin.len()
            invariant
                i <= self.builtin@.len(),
                forall|j: int| 0 <= j < i ==> self.builtin.deep_view()[j] != module@,
            decreases self.builtin@.len() - i,
        {
            let hit = bytes_eq(self.builtin[i].as_slice(), module);
            proof {
                assert(self.builtin.deep_view()[i as int] == self.builtin@[i as int]@);
            }
            if hit {
                assert(self.builtin.deep_view()[i as int] == module@);
                return true;
            }
            i += 1;
        }
        assert(forall|j: int|
            0 <= j < self.builtin.deep_view().len() ==> self.builtin.deep_view()[j] != module@);
        false
    }
}

/// Look a module up in an association list of dependency lists.
fn lookup_dep_list<'a>(es: &'a Vec<(Vec<u8>, Vec<Vec<u8>>)>, module: &[u8]) -> (r: Option<
    &'a Vec<Vec<u8>>,
>)
    ensures
        match r {
            Some(ds) => spec_lookup(spec_dep_map(es@), module@) == Some(ds.deep_view()),
            None => spec_lookup(spec_dep_map(es@), module@) is None,
        },
{
    let mut i: usize = 0;
    while i < es.len()
        invariant
            i <= es@.len(),
            forall|j: int| 0 <= j < i ==> spec_dep_map(es@)[j].0 != module@,
        decreases es@.len() - i,
    {
        let e = &es[i];
        if bytes_eq(e.0.as_slice(), module) {
            proof {
                lemma_lookup_at(spec_dep_map(es@), module@, i as int);
            }
            return Some(&e.1);
        }
        i += 1;
    }
    proof {
        lemma_lookup_none(spec_dep_map(es@), module@);
    }
    None
}

/// The init-specific settings.
#[derive(Debug, Clone, PartialEq, Eq)]
pub struct IgnitedConfig {
    pub lvm: bool,
    pub mdraid: bool,
    pub module_force: Vec<Vec<u8>>,
    pub mount_timeout: Option<i64>,
}

impl IgnitedConfig {
    /// Whether LVM is needed to reach the root partition.
    pub fn has_lvm(&self) -> (r: bool)
        ensures
            r == self.lvm,
    {
        self.lvm
    }

    /// Whether RAID is needed to reach the root partition.
    pub fn has_mdraid(&self) -> (r: bool)
        ensures
            r == self.mdraid,
    {
        self.mdraid
    }

    /// The modules to load unconditionally at startup.
    pub fn get_force_modules(&self) -> (r: &Vec<Vec<u8>>)
        ensures
            r.deep_view() == self.module_force.deep_view(),
    {
        &self.module_force
    }

    /// The root mount timeout in seconds; a missing, zero or negative
    /// value means no timeout.
    pub fn get_mount_timeout(&self) -> (r: Option<i64>)
        ensures
            r == if self.mount_timeout is Some && self.mount_timeout.unwrap() > 0 {
                self.mount_timeout
            } else {
                None::<i64>
            },
    {
        match self.mount_timeout {
            Some(t) if t > 0 => Some(t),
            _ => None,
        }
    }
}

/// The optional console settings.
#[derive(Debug, Clone, PartialEq, Eq)]
pub struct ConsoleConfig {
    pub utf: bool,
    pub font_file_p: Vec<u8>,
    pub font_map_file_p: Vec<u8>,
    pub font_unicode_file_p: Vec<u8>,
    pub keymap_file_p: Vec<u8>,
}

impl ConsoleConfig {
    /// Whether the console uses UTF-8.
    pub fn is_utf8(&self) -> (r: bool)
        ensures
            r == self.utf,
    {
        self.utf
    }

    /// The console font path.
    pub fn font_file(&self) -> (r: &Vec<u8>)
        ensures
            r@ == self.font_file_p@,
    {
        &self.font_file_p
    }

    /// The console font map path.
    pub fn font_map_file(&self) -> (r: &Vec<u8>)
        ensures
            r@ == self.font_map_file_p@,
    {
        &self.font_map_file_p
    }

    /// The console font unicode map path.
    pub fn font_unicode_file(&self) -> (r: &Vec<u8>)
        ensures
            r@ == self.font_unicode_file_p@,
    {
        &self.font_unicode_file_p
    }

    /// The console keymap path.
    pub fn keymap_file(&self) -> (r: &Vec<u8>)
        ensures
            r@ == self.keymap_file_p@,
    {
        &self.keymap_file_p
    }
}

/// The whole runtime configuration, frozen after it is built.
#[derive(Debug, Clone, PartialEq, Eq)]
pub struct RuntimeConfig {
    pub meta: InitramfsMetadata,
    pub ignited: IgnitedConfig,
    pub con: Option<ConsoleConfig>,
}

impl RuntimeConfig {
    /// The metadata section.
    pub fn metadata(&self) -> (r: &InitramfsMetadata)
        ensures
            r == self.meta,
    {
        &self.meta
    }

    /// The init-specific section.
    pub fn sysconf(&self) -> (r: &IgnitedConfig)
        ensures
            r == self.ignited,
    {
        &self.ignited
    }

    /// The console section, when there is one.
    pub fn console(&self) -> (r: Option<&ConsoleConfig>)
        ensures
            match r {
                Some(c) => self.con == Some(*c),
                None => self.con is None,
            },
    {
        self.con.as_ref()
    }
}

} // verus!
