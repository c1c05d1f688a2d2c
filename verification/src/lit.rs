//! The byte strings that the parsers recognize.
//!
//! Verus works on byte sequences here, so each recognized word is
//! written out as its ASCII bytes, once as a spec sequence and once
//! as an executable vector that is proved to match it.

use vstd::prelude::*;

verus! {

/// `debug`
pub open spec fn spec_debug() -> Seq<u8> {
    seq![100u8, 101u8, 98u8, 117u8, 103u8]
}

/// `debug`
pub fn lit_debug() -> (v: Vec<u8>)
    ensures
        v@ == spec_debug(),
{
    let v: Vec<u8> = vec![100u8, 101u8, 98u8, 117u8, 103u8];
    proof { assert(v@ =~= spec_debug()); }
    v
}

/// `info`
pub open spec fn spec_info() -> Seq<u8> {
    seq![105u8, 110u8, 102u8, 111u8]
}

/// `info`
pub fn lit_info() -> (v: Vec<u8>)
    ensures
        v@ == spec_info(),
{
    let v: Vec<u8> = vec![105u8, 110u8, 102u8, 111u8];
    proof { assert(v@ =~= spec_info()); }
    v
}

/// `notice`
pub open spec fn spec_notice() -> Seq<u8> {
    seq![110u8, 111u8, 116u8, 105u8, 99u8, 101u8]
}

/// `notice`
pub fn lit_notice() -> (v: Vec<u8>)
    ensures
        v@ == spec_notice(),
{
    let v: Vec<u8> = vec![110u8, 111u8, 116u8, 105u8, 99u8, 101u8];
    proof { assert(v@ =~= spec_notice()); }
    v
}

/// `warn`
pub open spec fn spec_warn() -> Seq<u8> {
    seq![119u8, 97u8, 114u8, 110u8]
}

/// `warn`
pub fn lit_warn() -> (v: Vec<u8>)
    ensures
        v@ == spec_warn(),
{
    let v: Vec<u8> = vec![119u8, 97u8, 114u8, 110u8];
    proof { assert(v@ =~= spec_warn()); }
    v
}

/// `warning`
pub open spec fn spec_warning() -> Seq<u8> {
    seq![119u8, 97u8, 114u8, 110u8, 105u8, 110u8, 103u8]
}

/// `warning`
pub fn lit_warning() -> (v: Vec<u8>)
    ensures
        v@ == spec_warning(),
{
    let v: Vec<u8> = vec![119u8, 97u8, 114u8, 110u8, 105u8, 110u8, 103u8];
    proof { assert(v@ =~= spec_warning()); }
    v
}

/// `err`
pub open spec fn spec_err() -> Seq<u8> {
    seq![101u8, 114u8, 114u8]
}

/// `err`
pub fn lit_err() -> (v: Vec<u8>)
    ensures
        v@ == spec_err(),
{
    let v: Vec<u8> = vec![101u8, 114u8, 114u8];
    proof { assert(v@ =~= spec_err()); }
    v
}

/// `error`
pub open spec fn spec_error() -> Seq<u8> {
    seq![101u8, 114u8, 114u8, 111u8, 114u8]
}

/// `error`
pub fn lit_error() -> (v: Vec<u8>)
    ensures
        v@ == spec_error(),
{
    let v: Vec<u8> = vec![101u8, 114u8, 114u8, 111u8, 114u8];
    proof { assert(v@ =~= spec_error()); }
    v
}



/// `quiet`
pub open spec fn spec_quiet() -> Seq<u8> {
    seq![113u8, 117u8, 105u8, 101u8, 116u8]
}

/// `quiet`
pub fn lit_quiet() -> (v: Vec<u8>)
    ensures
        v@ == spec_quiet(),
{
    let v: Vec<u8> = vec![113u8, 117u8, 105u8, 101u8, 116u8];
    proof { assert(v@ =~= spec_quiet()); }
    v
}

/// `ignited.log`
pub open spec fn spec_ignited_log() -> Seq<u8> {
    seq![105u8, 103u8, 110u8, 105u8, 116u8, 101u8, 100u8, 46u8, 108u8, 111u8, 103u8]
}

/// `ignited.log`
pub fn lit_ignited_log() -> (v: Vec<u8>)
    ensures
        v@ == spec_ignited_log(),
{
    let v: Vec<u8> = vec![105u8, 103u8, 110u8, 105u8, 116u8, 101u8, 100u8, 46u8, 108u8, 111u8, 103u8];
    proof { assert(v@ =~= spec_ignited_log()); }
    v
}

/// `booster.log`
pub open spec fn spec_booster_log() -> Seq<u8> {
    seq![98u8, 111u8, 111u8, 115u8, 116u8, 101u8, 114u8, 46u8, 108u8, 111u8, 103u8]
}

/// `booster.log`
pub fn lit_booster_log() -> (v: Vec<u8>)
    ensures
        v@ == spec_booster_log(),
{
    let v: Vec<u8> = vec![98u8, 111u8, 111u8, 115u8, 116u8, 101u8, 114u8, 46u8, 108u8, 111u8, 103u8];
    proof { assert(v@ =~= spec_booster_log()); }
    v
}

/// `booster.debug`
pub open spec fn spec_booster_debug() -> Seq<u8> {
    seq![98u8, 111u8, 111u8, 115u8, 116u8, 101u8, 114u8, 46u8, 100u8, 101u8, 98u8, 117u8, 103u8]
}

/// `booster.debug`
pub fn lit_booster_debug() -> (v: Vec<u8>)
    ensures
        v@ == spec_booster_debug(),
{
    let v: Vec<u8> = vec![98u8, 111u8, 111u8, 115u8, 116u8, 101u8, 114u8, 46u8, 100u8, 101u8, 98u8, 117u8, 103u8];
    proof { assert(v@ =~= spec_booster_debug()); }
    v
}

/// `root`
pub open spec fn spec_root() -> Seq<u8> {
    seq![114u8, 111u8, 111u8, 116u8]
}

/// `root`
pub fn lit_root() -> (v: Vec<u8>)
    ensures
        v@ == spec_root(),
{
    let v: Vec<u8> = vec![114u8, 111u8, 111u8, 116u8];
    proof { assert(v@ =~= spec_root()); }
    v
}

/// `resume`
pub open spec fn spec_resume() -> Seq<u8> {
    seq![114u8, 101u8, 115u8, 117u8, 109u8, 101u8]
}

/// `resume`
pub fn lit_resume() -> (v: Vec<u8>)
    ensures
        v@ == spec_resume(),
{
    let v: Vec<u8> = vec![114u8, 101u8, 115u8, 117u8, 109u8, 101u8];
    proof { assert(v@ =~= spec_resume()); }
    v
}

/// `init`
pub open spec fn spec_init() -> Seq<u8> {
    seq![105u8, 110u8, 105u8, 116u8]
}

/// `init`
pub fn lit_init() -> (v: Vec<u8>)
    ensures
        v@ == spec_init(),
{
    let v: Vec<u8> = vec![105u8, 110u8, 105u8, 116u8];
    proof { assert(v@ =~= spec_init()); }
    v
}

/// `rootfstype`
pub open spec fn spec_rootfstype() -> Seq<u8> {
    seq![114u8, 111u8, 111u8, 116u8, 102u8, 115u8, 116u8, 121u8, 112u8, 101u8]
}

/// `rootfstype`
pub fn lit_rootfstype() -> (v: Vec<u8>)
    ensures
        v@ == spec_rootfstype(),
{
    let v: Vec<u8> = vec![114u8, 111u8, 111u8, 116u8, 102u8, 115u8, 116u8, 121u8, 112u8, 101u8];
    proof { assert(v@ =~= spec_rootfstype()); }
    v
}

/// `rootflags`
pub open spec fn spec_rootflags() -> Seq<u8> {
    seq![114u8, 111u8, 111u8, 116u8, 102u8, 108u8, 97u8, 103u8, 115u8]
}

/// `rootflags`
pub fn lit_rootflags() -> (v: Vec<u8>)
    ensures
        v@ == spec_rootflags(),
{
    let v: Vec<u8> = vec![114u8, 111u8, 111u8, 116u8, 102u8, 108u8, 97u8, 103u8, 115u8];
    proof { assert(v@ =~= spec_rootflags()); }
    v
}

/// `ro`
pub open spec fn spec_ro() -> Seq<u8> {
    seq![114u8, 111u8]
}

/// `ro`
pub fn lit_ro() -> (v: Vec<u8>)
    ensures
        v@ == spec_ro(),
{
    let v: Vec<u8> = vec![114u8, 111u8];
    proof { assert(v@ =~= spec_ro()); }
    v
}

/// `rw`
pub open spec fn spec_rw() -> Seq<u8> {
    seq![114u8, 119u8]
}

/// `rw`
pub fn lit_rw() -> (v: Vec<u8>)
    ensures
        v@ == spec_rw(),
{
    let v: Vec<u8> = vec![114u8, 119u8];
    proof { assert(v@ =~= spec_rw()); }
    v
}

/// `rd.luks.options`
pub open spec fn spec_rd_luks_options() -> Seq<u8> {
    seq![114u8, 100u8, 46u8, 108u8, 117u8, 107u8, 115u8, 46u8, 111u8, 112u8, 116u8, 105u8, 111u8, 110u8, 115u8]
}

/// `rd.luks.options`
pub fn lit_rd_luks_options() -> (v: Vec<u8>)
    ensures
        v@ == spec_rd_luks_options(),
{
    let v: Vec<u8> = vec![114u8, 100u8, 46u8, 108u8, 117u8, 107u8, 115u8, 46u8, 111u8, 112u8, 116u8, 105u8, 111u8, 110u8, 115u8];
    proof { assert(v@ =~= spec_rd_luks_options()); }
    v
}

/// `rd.luks.name`
pub open spec fn spec_rd_luks_name() -> Seq<u8> {
    seq![114u8, 100u8, 46u8, 108u8, 117u8, 107u8, 115u8, 46u8, 110u8, 97u8, 109u8, 101u8]
}

/// `rd.luks.name`
pub fn lit_rd_luks_name() -> (v: Vec<u8>)
    ensures
        v@ == spec_rd_luks_name(),
{
    let v: Vec<u8> = vec![114u8, 100u8, 46u8, 108u8, 117u8, 107u8, 115u8, 46u8, 110u8, 97u8, 109u8, 101u8];
    proof { assert(v@ =~= spec_rd_luks_name()); }
    v
}

/// `rd.luks.uuid`
pub open spec fn spec_rd_luks_uuid() -> Seq<u8> {
    seq![114u8, 100u8, 46u8, 108u8, 117u8, 107u8, 115u8, 46u8, 117u8, 117u8, 105u8, 100u8]
}

/// `rd.luks.uuid`
pub fn lit_rd_luks_uuid() -> (v: Vec<u8>)
    ensures
        v@ == spec_rd_luks_uuid(),
{
    let v: Vec<u8> = vec![114u8, 100u8, 46u8, 108u8, 117u8, 107u8, 115u8, 46u8, 117u8, 117u8, 105u8, 100u8];
    proof { assert(v@ =~= spec_rd_luks_uuid()); }
    v
}

/// `UUID=`
pub open spec fn spec_uuid_pre() -> Seq<u8> {
    seq![85u8, 85u8, 73u8, 68u8, 61u8]
}

/// `UUID=`
pub fn lit_uuid_pre() -> (v: Vec<u8>)
    ensures
        v@ == spec_uuid_pre(),
{
    let v: Vec<u8> = vec![85u8, 85u8, 73u8, 68u8, 61u8];
    proof { assert(v@ =~= spec_uuid_pre()); }
    v
}

/// `LABEL=`
pub open spec fn spec_label_pre() -> Seq<u8> {
    seq![76u8, 65u8, 66u8, 69u8, 76u8, 61u8]
}

/// `LABEL=`
pub fn lit_label_pre() -> (v: Vec<u8>)
    ensures
        v@ == spec_label_pre(),
{
    let v: Vec<u8> = vec![76u8, 65u8, 66u8, 69u8, 76u8, 61u8];
    proof { assert(v@ =~= spec_label_pre()); }
    v
}

/// `PARTUUID=`
pub open spec fn spec_partuuid_pre() -> Seq<u8> {
    seq![80u8, 65u8, 82u8, 84u8, 85u8, 85u8, 73u8, 68u8, 61u8]
}

/// `PARTUUID=`
pub fn lit_partuuid_pre() -> (v: Vec<u8>)
    ensures
        v@ == spec_partuuid_pre(),
{
    let v: Vec<u8> = vec![80u8, 65u8, 82u8, 84u8, 85u8, 85u8, 73u8, 68u8, 61u8];
    proof { assert(v@ =~= spec_partuuid_pre()); }
    v
}

/// `PARTLABEL=`
pub open spec fn spec_partlabel_pre() -> Seq<u8> {
    seq![80u8, 65u8, 82u8, 84u8, 76u8, 65u8, 66u8, 69u8, 76u8, 61u8]
}

/// `PARTLABEL=`
pub fn lit_partlabel_pre() -> (v: Vec<u8>)
    ensures
        v@ == spec_partlabel_pre(),
{
    let v: Vec<u8> = vec![80u8, 65u8, 82u8, 84u8, 76u8, 65u8, 66u8, 69u8, 76u8, 61u8];
    proof { assert(v@ =~= spec_partlabel_pre()); }
    v
}

/// `/dev/disk/by-uuid/`
pub open spec fn spec_by_uuid() -> Seq<u8> {
    seq![47u8, 100u8, 101u8, 118u8, 47u8, 100u8, 105u8, 115u8, 107u8, 47u8, 98u8, 121u8, 45u8, 117u8, 117u8, 105u8, 100u8, 47u8]
}

/// `/dev/disk/by-uuid/`
pub fn lit_by_uuid() -> (v: Vec<u8>)
    ensures
        v@ == spec_by_uuid(),
{
    let v: Vec<u8> = vec![47u8, 100u8, 101u8, 118u8, 47u8, 100u8, 105u8, 115u8, 107u8, 47u8, 98u8, 121u8, 45u8, 117u8, 117u8, 105u8, 100u8, 47u8];
    proof { assert(v@ =~= spec_by_uuid()); }
    v
}

/// `/dev/disk/by-label/`
pub open spec fn spec_by_label() -> Seq<u8> {
    seq![47u8, 100u8, 101u8, 118u8, 47u8, 100u8, 105u8, 115u8, 107u8, 47u8, 98u8, 121u8, 45u8, 108u8, 97u8, 98u8, 101u8, 108u8, 47u8]
}

/// `/dev/disk/by-label/`
pub fn lit_by_label() -> (v: Vec<u8>)
    ensures
        v@ == spec_by_label(),
{
    let v: Vec<u8> = vec![47u8, 100u8, 101u8, 118u8, 47u8, 100u8, 105u8, 115u8, 107u8, 47u8, 98u8, 121u8, 45u8, 108u8, 97u8, 98u8, 101u8, 108u8, 47u8];
    proof { assert(v@ =~= spec_by_label()); }
    v
}

/// `/dev/disk/by-partuuid/`
pub open spec fn spec_by_partuuid() -> Seq<u8> {
    seq![47u8, 100u8, 101u8, 118u8, 47u8, 100u8, 105u8, 115u8, 107u8, 47u8, 98u8, 121u8, 45u8, 112u8, 97u8, 114u8, 116u8, 117u8, 117u8, 105u8, 100u8, 47u8]
}

/// `/dev/disk/by-partuuid/`
pub fn lit_by_partuuid() -> (v: Vec<u8>)
    ensures
        v@ == spec_by_partuuid(),
{
    let v: Vec<u8> = vec![47u8, 100u8, 101u8, 118u8, 47u8, 100u8, 105u8, 115u8, 107u8, 47u8, 98u8, 121u8, 45u8, 112u8, 97u8, 114u8, 116u8, 117u8, 117u8, 105u8, 100u8, 47u8];
    proof { assert(v@ =~= spec_by_partuuid()); }
    v
}

/// `/dev/disk/by-partlabel/`
pub open spec fn spec_by_partlabel() -> Seq<u8> {
    seq![47u8, 100u8, 101u8, 118u8, 47u8, 100u8, 105u8, 115u8, 107u8, 47u8, 98u8, 121u8, 45u8, 112u8, 97u8, 114u8, 116u8, 108u8, 97u8, 98u8, 101u8, 108u8, 47u8]
}

/// `/dev/disk/by-partlabel/`
pub fn lit_by_partlabel() -> (v: Vec<u8>)
    ensures
        v@ == spec_by_partlabel(),
{
    let v: Vec<u8> = vec![47u8, 100u8, 101u8, 118u8, 47u8, 100u8, 105u8, 115u8, 107u8, 47u8, 98u8, 121u8, 45u8, 112u8, 97u8, 114u8, 116u8, 108u8, 97u8, 98u8, 101u8, 108u8, 47u8];
    proof { assert(v@ =~= spec_by_partlabel()); }
    v
}

/// `/dev/`
pub open spec fn spec_dev_dir() -> Seq<u8> {
    seq![47u8, 100u8, 101u8, 118u8, 47u8]
}

/// `/dev/`
pub fn lit_dev_dir() -> (v: Vec<u8>)
    ensures
        v@ == spec_dev_dir(),
{
    let v: Vec<u8> = vec![47u8, 100u8, 101u8, 118u8, 47u8];
    proof { assert(v@ =~= spec_dev_dir()); }
    v
}

/// `/PARTNROFF=`
pub open spec fn spec_partnroff() -> Seq<u8> {
    seq![47u8, 80u8, 65u8, 82u8, 84u8, 78u8, 82u8, 79u8, 70u8, 70u8, 61u8]
}

/// `/PARTNROFF=`
pub fn lit_partnroff() -> (v: Vec<u8>)
    ensures
        v@ == spec_partnroff(),
{
    let v: Vec<u8> = vec![47u8, 80u8, 65u8, 82u8, 84u8, 78u8, 82u8, 79u8, 70u8, 70u8, 61u8];
    proof { assert(v@ =~= spec_partnroff()); }
    v
}

/// `dirsync`
pub open spec fn spec_dirsync() -> Seq<u8> {
    seq![100u8, 105u8, 114u8, 115u8, 121u8, 110u8, 99u8]
}

/// `dirsync`
pub fn lit_dirsync() -> (v: Vec<u8>)
    ensures
        v@ == spec_dirsync(),
{
    let v: Vec<u8> = vec![100u8, 105u8, 114u8, 115u8, 121u8, 110u8, 99u8];
    proof { assert(v@ =~= spec_dirsync()); }
    v
}

/// `lazytime`
pub open spec fn spec_lazytime() -> Seq<u8> {
    seq![108u8, 97u8, 122u8, 121u8, 116u8, 105u8, 109u8, 101u8]
}

/// `lazytime`
pub fn lit_lazytime() -> (v: Vec<u8>)
    ensures
        v@ == spec_lazytime(),
{
    let v: Vec<u8> = vec![108u8, 97u8, 122u8, 121u8, 116u8, 105u8, 109u8, 101u8];
    proof { assert(v@ =~= spec_lazytime()); }
    v
}

/// `nolazytime`
pub open spec fn spec_nolazytime() -> Seq<u8> {
    seq![110u8, 111u8, 108u8, 97u8, 122u8, 121u8, 116u8, 105u8, 109u8, 101u8]
}

/// `nolazytime`
pub fn lit_nolazytime() -> (v: Vec<u8>)
    ensures
        v@ == spec_nolazytime(),
{
    let v: Vec<u8> = vec![110u8, 111u8, 108u8, 97u8, 122u8, 121u8, 116u8, 105u8, 109u8, 101u8];
    proof { assert(v@ =~= spec_nolazytime()); }
    v
}

/// `noatime`
pub open spec fn spec_noatime() -> Seq<u8> {
    seq![110u8, 111u8, 97u8, 116u8, 105u8, 109u8, 101u8]
}

/// `noatime`
pub fn lit_noatime() -> (v: Vec<u8>)
    ensures
        v@ == spec_noatime(),
{
    let v: Vec<u8> = vec![110u8, 111u8, 97u8, 116u8, 105u8, 109u8, 101u8];
    proof { assert(v@ =~= spec_noatime()); }
    v
}

/// `atime`
pub open spec fn spec_atime() -> Seq<u8> {
    seq![97u8, 116u8, 105u8, 109u8, 101u8]
}

/// `atime`
pub fn lit_atime() -> (v: Vec<u8>)
    ensures
        v@ == spec_atime(),
{
    let v: Vec<u8> = vec![97u8, 116u8, 105u8, 109u8, 101u8];
    proof { assert(v@ =~= spec_atime()); }
    v
}

/// `nodev`
pub open spec fn spec_nodev() -> Seq<u8> {
    seq![110u8, 111u8, 100u8, 101u8, 118u8]
}

/// `nodev`
pub fn lit_nodev() -> (v: Vec<u8>)
    ensures
        v@ == spec_nodev(),
{
    let v: Vec<u8> = vec![110u8, 111u8, 100u8, 101u8, 118u8];
    proof { assert(v@ =~= spec_nodev()); }
    v
}

/// `dev`
pub open spec fn spec_dev() -> Seq<u8> {
    seq![100u8, 101u8, 118u8]
}

/// `dev`
pub fn lit_dev() -> (v: Vec<u8>)
    ensures
        v@ == spec_dev(),
{
    let v: Vec<u8> = vec![100u8, 101u8, 118u8];
    proof { assert(v@ =~= spec_dev()); }
    v
}

/// `nodiratime`
pub open spec fn spec_nodiratime() -> Seq<u8> {
    seq![110u8, 111u8, 100u8, 105u8, 114u8, 97u8, 116u8, 105u8, 109u8, 101u8]
}

/// `nodiratime`
pub fn lit_nodiratime() -> (v: Vec<u8>)
    ensures
        v@ == spec_nodiratime(),
{
    let v: Vec<u8> = vec![110u8, 111u8, 100u8, 105u8, 114u8, 97u8, 116u8, 105u8, 109u8, 101u8];
    proof { assert(v@ =~= spec_nodiratime()); }
    v
}

/// `diratime`
pub open spec fn spec_diratime() -> Seq<u8> {
    seq![100u8, 105u8, 114u8, 97u8, 116u8, 105u8, 109u8, 101u8]
}

/// `diratime`
pub fn lit_diratime() -> (v: Vec<u8>)
    ensures
        v@ == spec_diratime(),
{
    let v: Vec<u8> = vec![100u8, 105u8, 114u8, 97u8, 116u8, 105u8, 109u8, 101u8];
    proof { assert(v@ =~= spec_diratime()); }
    v
}

/// `noexec`
pub open spec fn spec_noexec() -> Seq<u8> {
    seq![110u8, 111u8, 101u8, 120u8, 101u8, 99u8]
}

/// `noexec`
pub fn lit_noexec() -> (v: Vec<u8>)
    ensures
        v@ == spec_noexec(),
{
    let v: Vec<u8> = vec![110u8, 111u8, 101u8, 120u8, 101u8, 99u8];
    proof { assert(v@ =~= spec_noexec()); }
    v
}

/// `exec`
pub open spec fn spec_exec() -> Seq<u8> {
    seq![101u8, 120u8, 101u8, 99u8]
}

/// `exec`
pub fn lit_exec() -> (v: Vec<u8>)
    ensures
        v@ == spec_exec(),
{
    let v: Vec<u8> = vec![101u8, 120u8, 101u8, 99u8];
    proof { assert(v@ =~= spec_exec()); }
    v
}

/// `nosuid`
pub open spec fn spec_nosuid() -> Seq<u8> {
    seq![110u8, 111u8, 115u8, 117u8, 105u8, 100u8]
}

/// `nosuid`
pub fn lit_nosuid() -> (v: Vec<u8>)
    ensures
        v@ == spec_nosuid(),
{
    let v: Vec<u8> = vec![110u8, 111u8, 115u8, 117u8, 105u8, 100u8];
    proof { assert(v@ =~= spec_nosuid()); }
    v
}

/// `suid`
pub open spec fn spec_suid() -> Seq<u8> {
    seq![115u8, 117u8, 105u8, 100u8]
}

/// `suid`
pub fn lit_suid() -> (v: Vec<u8>)
    ensures
        v@ == spec_suid(),
{
    let v: Vec<u8> = vec![115u8, 117u8, 105u8, 100u8];
    proof { assert(v@ =~= spec_suid()); }
    v
}

/// `relatime`
pub open spec fn spec_relatime() -> Seq<u8> {
    seq![114u8, 101u8, 108u8, 97u8, 116u8, 105u8, 109u8, 101u8]
}

/// `relatime`
pub fn lit_relatime() -> (v: Vec<u8>)
    ensures
        v@ == spec_relatime(),
{
    let v: Vec<u8> = vec![114u8, 101u8, 108u8, 97u8, 116u8, 105u8, 109u8, 101u8];
    proof { assert(v@ =~= spec_relatime()); }
    v
}

/// `norelatime`
pub open spec fn spec_norelatime() -> Seq<u8> {
    seq![110u8, 111u8, 114u8, 101u8, 108u8, 97u8, 116u8, 105u8, 109u8, 101u8]
}

/// `norelatime`
pub fn lit_norelatime() -> (v: Vec<u8>)
    ensures
        v@ == spec_norelatime(),
{
    let v: Vec<u8> = vec![110u8, 111u8, 114u8, 101u8, 108u8, 97u8, 116u8, 105u8, 109u8, 101u8];
    proof { assert(v@ =~= spec_norelatime()); }
    v
}

/// `silent`
pub open spec fn spec_silent() -> Seq<u8> {
    seq![115u8, 105u8, 108u8, 101u8, 110u8, 116u8]
}

/// `silent`
pub fn lit_silent() -> (v: Vec<u8>)
    ensures
        v@ == spec_silent(),
{
    let v: Vec<u8> = vec![115u8, 105u8, 108u8, 101u8, 110u8, 116u8];
    proof { assert(v@ =~= spec_silent()); }
    v
}

/// `strictatime`
pub open spec fn spec_strictatime() -> Seq<u8> {
    seq![115u8, 116u8, 114u8, 105u8, 99u8, 116u8, 97u8, 116u8, 105u8, 109u8, 101u8]
}

/// `strictatime`
pub fn lit_strictatime() -> (v: Vec<u8>)
    ensures
        v@ == spec_strictatime(),
{
    let v: Vec<u8> = vec![115u8, 116u8, 114u8, 105u8, 99u8, 116u8, 97u8, 116u8, 105u8, 109u8, 101u8];
    proof { assert(v@ =~= spec_strictatime()); }
    v
}

/// `nostrictatime`
pub open spec fn spec_nostrictatime() -> Seq<u8> {
    seq![110u8, 111u8, 115u8, 116u8, 114u8, 105u8, 99u8, 116u8, 97u8, 116u8, 105u8, 109u8, 101u8]
}

/// `nostrictatime`
pub fn lit_nostrictatime() -> (v: Vec<u8>)
    ensures
        v@ == spec_nostrictatime(),
{
    let v: Vec<u8> = vec![110u8, 111u8, 115u8, 116u8, 114u8, 105u8, 99u8, 116u8, 97u8, 116u8, 105u8, 109u8, 101u8];
    proof { assert(v@ =~= spec_nostrictatime()); }
    v
}

/// `sync`
pub open spec fn spec_sync() -> Seq<u8> {
    seq![115u8, 121u8, 110u8, 99u8]
}

/// `sync`
pub fn lit_sync() -> (v: Vec<u8>)
    ensures
        v@ == spec_sync(),
{
    let v: Vec<u8> = vec![115u8, 121u8, 110u8, 99u8];
    proof { assert(v@ =~= spec_sync()); }
    v
}

/// `async`
pub open spec fn spec_asynchronous() -> Seq<u8> {
    seq![97u8, 115u8, 121u8, 110u8, 99u8]
}

/// `async`
pub fn lit_asynchronous() -> (v: Vec<u8>)
    ensures
        v@ == spec_asynchronous(),
{
    let v: Vec<u8> = vec![97u8, 115u8, 121u8, 110u8, 99u8];
    proof { assert(v@ =~= spec_asynchronous()); }
    v
}

/// `nosymfollow`
pub open spec fn spec_nosymfollow() -> Seq<u8> {
    seq![110u8, 111u8, 115u8, 121u8, 109u8, 102u8, 111u8, 108u8, 108u8, 111u8, 119u8]
}

/// `nosymfollow`
pub fn lit_nosymfollow() -> (v: Vec<u8>)
    ensures
        v@ == spec_nosymfollow(),
{
    let v: Vec<u8> = vec![110u8, 111u8, 115u8, 121u8, 109u8, 102u8, 111u8, 108u8, 108u8, 111u8, 119u8];
    proof { assert(v@ =~= spec_nosymfollow()); }
    v
}

/// `/sbin/init`
pub open spec fn spec_sbin_init() -> Seq<u8> {
    seq![47u8, 115u8, 98u8, 105u8, 110u8, 47u8, 105u8, 110u8, 105u8, 116u8]
}

/// `/sbin/init`
pub fn lit_sbin_init() -> (v: Vec<u8>)
    ensures
        v@ == spec_sbin_init(),
{
    let v: Vec<u8> = vec![47u8, 115u8, 98u8, 105u8, 110u8, 47u8, 105u8, 110u8, 105u8, 116u8];
    proof { assert(v@ =~= spec_sbin_init()); }
    v
}

/// `/systemd`
pub open spec fn spec_systemd_suffix() -> Seq<u8> {
    seq![47u8, 115u8, 121u8, 115u8, 116u8, 101u8, 109u8, 100u8]
}

/// `/systemd`
pub fn lit_systemd_suffix() -> (v: Vec<u8>)
    ensures
        v@ == spec_systemd_suffix(),
{
    let v: Vec<u8> = vec![47u8, 115u8, 121u8, 115u8, 116u8, 101u8, 109u8, 100u8];
    proof { assert(v@ =~= spec_systemd_suffix()); }
    v
}

/// `block`
pub open spec fn spec_block() -> Seq<u8> {
    seq![98u8, 108u8, 111u8, 99u8, 107u8]
}

/// `block`
pub fn lit_block() -> (v: Vec<u8>)
    ensures
        v@ == spec_block(),
{
    let v: Vec<u8> = vec![98u8, 108u8, 111u8, 99u8, 107u8];
    proof { assert(v@ =~= spec_block()); }
    v
}

/// `net`
pub open spec fn spec_net() -> Seq<u8> {
    seq![110u8, 101u8, 116u8]
}

/// `net`
pub fn lit_net() -> (v: Vec<u8>)
    ensures
        v@ == spec_net(),
{
    let v: Vec<u8> = vec![110u8, 101u8, 116u8];
    proof { assert(v@ =~= spec_net()); }
    v
}

/// `hidraw`
pub open spec fn spec_hidraw() -> Seq<u8> {
    seq![104u8, 105u8, 100u8, 114u8, 97u8, 119u8]
}

/// `hidraw`
pub fn lit_hidraw() -> (v: Vec<u8>)
    ensures
        v@ == spec_hidraw(),
{
    let v: Vec<u8> = vec![104u8, 105u8, 100u8, 114u8, 97u8, 119u8];
    proof { assert(v@ =~= spec_hidraw()); }
    v
}

/// `ignited`
pub open spec fn spec_program() -> Seq<u8> {
    seq![105u8, 103u8, 110u8, 105u8, 116u8, 101u8, 100u8]
}

/// `ignited`
pub fn lit_program() -> (v: Vec<u8>)
    ensures
        v@ == spec_program(),
{
    let v: Vec<u8> = vec![105u8, 103u8, 110u8, 105u8, 116u8, 101u8, 100u8];
    proof { assert(v@ =~= spec_program()); }
    v
}




/// `proc`
pub open spec fn spec_proc_fs() -> Seq<u8> {
    seq![112u8, 114u8, 111u8, 99u8]
}

/// `proc`
pub fn lit_proc_fs() -> (v: Vec<u8>)
    ensures
        v@ == spec_proc_fs(),
{
    let v: Vec<u8> = vec![112u8, 114u8, 111u8, 99u8];
    proof { assert(v@ =~= spec_proc_fs()); }
    v
}

/// `sys`
pub open spec fn spec_sys_fs() -> Seq<u8> {
    seq![115u8, 121u8, 115u8]
}

/// `sys`
pub fn lit_sys_fs() -> (v: Vec<u8>)
    ensures
        v@ == spec_sys_fs(),
{
    let v: Vec<u8> = vec![115u8, 121u8, 115u8];
    proof { assert(v@ =~= spec_sys_fs()); }
    v
}

/// `efivarfs`
pub open spec fn spec_efivarfs() -> Seq<u8> {
    seq![101u8, 102u8, 105u8, 118u8, 97u8, 114u8, 102u8, 115u8]
}

/// `efivarfs`
pub fn lit_efivarfs() -> (v: Vec<u8>)
    ensures
        v@ == spec_efivarfs(),
{
    let v: Vec<u8> = vec![101u8, 102u8, 105u8, 118u8, 97u8, 114u8, 102u8, 115u8];
    proof { assert(v@ =~= spec_efivarfs()); }
    v
}

/// `devtmpfs`
pub open spec fn spec_devtmpfs() -> Seq<u8> {
    seq![100u8, 101u8, 118u8, 116u8, 109u8, 112u8, 102u8, 115u8]
}

/// `devtmpfs`
pub fn lit_devtmpfs() -> (v: Vec<u8>)
    ensures
        v@ == spec_devtmpfs(),
{
    let v: Vec<u8> = vec![100u8, 101u8, 118u8, 116u8, 109u8, 112u8, 102u8, 115u8];
    proof { assert(v@ =~= spec_devtmpfs()); }
    v
}

/// `tmpfs`
pub open spec fn spec_tmpfs() -> Seq<u8> {
    seq![116u8, 109u8, 112u8, 102u8, 115u8]
}

/// `tmpfs`
pub fn lit_tmpfs() -> (v: Vec<u8>)
    ensures
        v@ == spec_tmpfs(),
{
    let v: Vec<u8> = vec![116u8, 109u8, 112u8, 102u8, 115u8];
    proof { assert(v@ =~= spec_tmpfs()); }
    v
}

/// `sysfs`
pub open spec fn spec_sysfs() -> Seq<u8> {
    seq![115u8, 121u8, 115u8, 102u8, 115u8]
}

/// `sysfs`
pub fn lit_sysfs() -> (v: Vec<u8>)
    ensures
        v@ == spec_sysfs(),
{
    let v: Vec<u8> = vec![115u8, 121u8, 115u8, 102u8, 115u8];
    proof { assert(v@ =~= spec_sysfs()); }
    v
}

/// `/dev`
pub open spec fn spec_dev_mnt() -> Seq<u8> {
    seq![47u8, 100u8, 101u8, 118u8]
}

/// `/dev`
pub fn lit_dev_mnt() -> (v: Vec<u8>)
    ensures
        v@ == spec_dev_mnt(),
{
    let v: Vec<u8> = vec![47u8, 100u8, 101u8, 118u8];
    proof { assert(v@ =~= spec_dev_mnt()); }
    v
}

/// `/proc`
pub open spec fn spec_proc_mnt() -> Seq<u8> {
    seq![47u8, 112u8, 114u8, 111u8, 99u8]
}

/// `/proc`
pub fn lit_proc_mnt() -> (v: Vec<u8>)
    ensures
        v@ == spec_proc_mnt(),
{
    let v: Vec<u8> = vec![47u8, 112u8, 114u8, 111u8, 99u8];
    proof { assert(v@ =~= spec_proc_mnt()); }
    v
}

/// `/sys`
pub open spec fn spec_sys_mnt() -> Seq<u8> {
    seq![47u8, 115u8, 121u8, 115u8]
}

/// `/sys`
pub fn lit_sys_mnt() -> (v: Vec<u8>)
    ensures
        v@ == spec_sys_mnt(),
{
    let v: Vec<u8> = vec![47u8, 115u8, 121u8, 115u8];
    proof { assert(v@ =~= spec_sys_mnt()); }
    v
}

/// `/sys/firmware/efi/efivars`
pub open spec fn spec_efivars_mnt() -> Seq<u8> {
    seq![47u8, 115u8, 121u8, 115u8, 47u8, 102u8, 105u8, 114u8, 109u8, 119u8, 97u8, 114u8, 101u8, 47u8, 101u8, 102u8, 105u8, 47u8, 101u8, 102u8, 105u8, 118u8, 97u8, 114u8, 115u8]
}

/// `/sys/firmware/efi/efivars`
pub fn lit_efivars_mnt() -> (v: Vec<u8>)
    ensures
        v@ == spec_efivars_mnt(),
{
    let v: Vec<u8> = vec![47u8, 115u8, 121u8, 115u8, 47u8, 102u8, 105u8, 114u8, 109u8, 119u8, 97u8, 114u8, 101u8, 47u8, 101u8, 102u8, 105u8, 47u8, 101u8, 102u8, 105u8, 118u8, 97u8, 114u8, 115u8];
    proof { assert(v@ =~= spec_efivars_mnt()); }
    v
}

/// `/system_root`
pub open spec fn spec_system_root() -> Seq<u8> {
    seq![47u8, 115u8, 121u8, 115u8, 116u8, 101u8, 109u8, 95u8, 114u8, 111u8, 111u8, 116u8]
}

/// `/system_root`
pub fn lit_system_root() -> (v: Vec<u8>)
    ensures
        v@ == spec_system_root(),
{
    let v: Vec<u8> = vec![47u8, 115u8, 121u8, 115u8, 116u8, 101u8, 109u8, 95u8, 114u8, 111u8, 111u8, 116u8];
    proof { assert(v@ =~= spec_system_root()); }
    v
}

/// `mode=0755`
pub open spec fn spec_mode0755() -> Seq<u8> {
    seq![109u8, 111u8, 100u8, 101u8, 61u8, 48u8, 55u8, 53u8, 53u8]
}

/// `mode=0755`
pub fn lit_mode0755() -> (v: Vec<u8>)
    ensures
        v@ == spec_mode0755(),
{
    let v: Vec<u8> = vec![109u8, 111u8, 100u8, 101u8, 61u8, 48u8, 55u8, 53u8, 53u8];
    proof { assert(v@ =~= spec_mode0755()); }
    v
}







/// `initrd-timestamp=`
pub open spec fn spec_initrd_timestamp() -> Seq<u8> {
    seq![105u8, 110u8, 105u8, 116u8, 114u8, 100u8, 45u8, 116u8, 105u8, 109u8, 101u8, 115u8, 116u8, 97u8, 109u8, 112u8, 61u8]
}

/// `initrd-timestamp=`
pub fn lit_initrd_timestamp() -> (v: Vec<u8>)
    ensures
        v@ == spec_initrd_timestamp(),
{
    let v: Vec<u8> = vec![105u8, 110u8, 105u8, 116u8, 114u8, 100u8, 45u8, 116u8, 105u8, 109u8, 101u8, 115u8, 116u8, 97u8, 109u8, 112u8, 61u8];
    proof { assert(v@ =~= spec_initrd_timestamp()); }
    v
}


/// `console`
pub open spec fn spec_console() -> Seq<u8> {
    seq![99u8, 111u8, 110u8, 115u8, 111u8, 108u8, 101u8]
}

/// `console`
pub fn lit_console() -> (v: Vec<u8>)
    ensures
        v@ == spec_console(),
{
    let v: Vec<u8> = vec![99u8, 111u8, 110u8, 115u8, 111u8, 108u8, 101u8];
    proof { assert(v@ =~= spec_console()); }
    v
}

/// `unknown `
pub open spec fn spec_unknown_pre() -> Seq<u8> {
    seq![117u8, 110u8, 107u8, 110u8, 111u8, 119u8, 110u8, 32u8]
}

/// `unknown `
pub fn lit_unknown_pre() -> (v: Vec<u8>)
    ensures
        v@ == spec_unknown_pre(),
{
    let v: Vec<u8> = vec![117u8, 110u8, 107u8, 110u8, 111u8, 119u8, 110u8, 32u8];
    proof { assert(v@ =~= spec_unknown_pre()); }
    v
}

/// ` key `
pub open spec fn spec_key_mid() -> Seq<u8> {
    seq![32u8, 107u8, 101u8, 121u8, 32u8]
}

/// ` key `
pub fn lit_key_mid() -> (v: Vec<u8>)
    ensures
        v@ == spec_key_mid(),
{
    let v: Vec<u8> = vec![32u8, 107u8, 101u8, 121u8, 32u8];
    proof { assert(v@ =~= spec_key_mid()); }
    v
}

/// `<EMPTY>`
pub open spec fn spec_empty_marker() -> Seq<u8> {
    seq![60u8, 69u8, 77u8, 80u8, 84u8, 89u8, 62u8]
}

/// `<EMPTY>`
pub fn lit_empty_marker() -> (v: Vec<u8>)
    ensures
        v@ == spec_empty_marker(),
{
    let v: Vec<u8> = vec![60u8, 69u8, 77u8, 80u8, 84u8, 89u8, 62u8];
    proof { assert(v@ =~= spec_empty_marker()); }
    v
}

/// `=console is ignored in ignited`
pub open spec fn spec_console_ignored() -> Seq<u8> {
    seq![61u8, 99u8, 111u8, 110u8, 115u8, 111u8, 108u8, 101u8, 32u8, 105u8, 115u8, 32u8, 105u8, 103u8, 110u8, 111u8, 114u8, 101u8, 100u8, 32u8, 105u8, 110u8, 32u8, 105u8, 103u8, 110u8, 105u8, 116u8, 101u8, 100u8]
}

/// `=console is ignored in ignited`
pub fn lit_console_ignored() -> (v: Vec<u8>)
    ensures
        v@ == spec_console_ignored(),
{
    let v: Vec<u8> = vec![61u8, 99u8, 111u8, 110u8, 115u8, 111u8, 108u8, 101u8, 32u8, 105u8, 115u8, 32u8, 105u8, 103u8, 110u8, 111u8, 114u8, 101u8, 100u8, 32u8, 105u8, 110u8, 32u8, 105u8, 103u8, 110u8, 105u8, 116u8, 101u8, 100u8];
    proof { assert(v@ =~= spec_console_ignored()); }
    v
}

/// `booster.debug is deprecated: use ignited.log=debug instead.`
pub open spec fn spec_booster_deprecated() -> Seq<u8> {
    seq![98u8, 111u8, 111u8, 115u8, 116u8, 101u8, 114u8, 46u8, 100u8, 101u8, 98u8, 117u8, 103u8, 32u8, 105u8, 115u8, 32u8, 100u8, 101u8, 112u8, 114u8, 101u8, 99u8, 97u8, 116u8, 101u8, 100u8, 58u8, 32u8, 117u8, 115u8, 101u8, 32u8, 105u8, 103u8, 110u8, 105u8, 116u8, 101u8, 100u8, 46u8, 108u8, 111u8, 103u8, 61u8, 100u8, 101u8, 98u8, 117u8, 103u8, 32u8, 105u8, 110u8, 115u8, 116u8, 101u8, 97u8, 100u8, 46u8]
}

/// `booster.debug is deprecated: use ignited.log=debug instead.`
pub fn lit_booster_deprecated() -> (v: Vec<u8>)
    ensures
        v@ == spec_booster_deprecated(),
{
    let v: Vec<u8> = vec![98u8, 111u8, 111u8, 115u8, 116u8, 101u8, 114u8, 46u8, 100u8, 101u8, 98u8, 117u8, 103u8, 32u8, 105u8, 115u8, 32u8, 100u8, 101u8, 112u8, 114u8, 101u8, 99u8, 97u8, 116u8, 101u8, 100u8, 58u8, 32u8, 117u8, 115u8, 101u8, 32u8, 105u8, 103u8, 110u8, 105u8, 116u8, 101u8, 100u8, 46u8, 108u8, 111u8, 103u8, 61u8, 100u8, 101u8, 98u8, 117u8, 103u8, 32u8, 105u8, 110u8, 115u8, 116u8, 101u8, 97u8, 100u8, 46u8];
    proof { assert(v@ =~= spec_booster_deprecated()); }
    v
}

/// ` key is empty, ignoring`
pub open spec fn spec_empty_value_suffix() -> Seq<u8> {
    seq![32u8, 107u8, 101u8, 121u8, 32u8, 105u8, 115u8, 32u8, 101u8, 109u8, 112u8, 116u8, 121u8, 44u8, 32u8, 105u8, 103u8, 110u8, 111u8, 114u8, 105u8, 110u8, 103u8]
}

/// ` key is empty, ignoring`
pub fn lit_empty_value_suffix() -> (v: Vec<u8>)
    ensures
        v@ == spec_empty_value_suffix(),
{
    let v: Vec<u8> = vec![32u8, 107u8, 101u8, 121u8, 32u8, 105u8, 115u8, 32u8, 101u8, 109u8, 112u8, 116u8, 121u8, 44u8, 32u8, 105u8, 103u8, 110u8, 111u8, 114u8, 105u8, 110u8, 103u8];
    proof { assert(v@ =~= spec_empty_value_suffix()); }
    v
}

/// `invalid key `
pub open spec fn spec_invalid_key_pre() -> Seq<u8> {
    seq![105u8, 110u8, 118u8, 97u8, 108u8, 105u8, 100u8, 32u8, 107u8, 101u8, 121u8, 32u8]
}

/// `invalid key `
pub fn lit_invalid_key_pre() -> (v: Vec<u8>)
    ensures
        v@ == spec_invalid_key_pre(),
{
    let v: Vec<u8> = vec![105u8, 110u8, 118u8, 97u8, 108u8, 105u8, 100u8, 32u8, 107u8, 101u8, 121u8, 32u8];
    proof { assert(v@ =~= spec_invalid_key_pre()); }
    v
}

} // verus!
