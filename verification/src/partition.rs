//! The root / resume partition specification: the tagged source value,
//! its textual forms on the kernel command line, and GPT partition
//! autodiscovery from the EFI loader variable.

use vstd::prelude::*;
use crate::bytes::{
    is_first_match, is_prefix, matches_at, push_all, spec_find_sub, starts_with, sub_vec, find_sub,
};
use crate::dec::{format_i64_dec, parse_i64_dec, spec_parse_i64};
use crate::hex::{all_hex, hex_msb_val};
use crate::lit;
use crate::uuid::{
    format_uuid, parse_uuid, parse_uuid_quoted, spec_hyph_digits, spec_hyph_shape, spec_parse_uuid,
    spec_unquote,
};

verus! {

/// The GPT partition GUID naming the partition the boot loader was
/// started from, read from the EFI variable `LoaderDevicePartUUID`.
#[derive(Debug, Clone, Copy, PartialEq, Eq, Structural)]
pub struct EfiPartitionGptGuid(pub u128);

/// The 16-bit units of a little-endian UTF-16 payload; a trailing odd
/// byte counts as its own unit.
pub open spec fn spec_utf16le_units(p: Seq<u8>) -> Seq<int> {
    Seq::new(((p.len() + 1) / 2) as nat, |i: int|
        if 2 * i + 1 < p.len() {
            p[2 * i] + 256 * p[2 * i + 1]
        } else {
            p[2 * i] as int
        }
    )
}

/// Decoding the EFI variable file: a 4-byte attribute word, then a
/// little-endian UTF-16 string holding a UUID spelling. A payload with
/// any unit outside ASCII cannot spell a UUID and is rejected.
pub open spec fn spec_efivar_guid(data: Seq<u8>) -> Option<EfiPartitionGptGuid> {
    if data.len() < 4 {
        None
    } else {
        let units = spec_utf16le_units(data.skip(4));
        if forall|i: int| 0 <= i < units.len() ==> 0 <= #[trigger] units[i] < 128 {
            match spec_parse_uuid(Seq::new(units.len(), |i: int| units[i] as u8)) {
                Some(v) => Some(EfiPartitionGptGuid(v)),
                None => None,
            }
        } else {
            None
        }
    }
}

impl EfiPartitionGptGuid {
    /// Decode the raw content of the EFI variable file.
    pub fn from_efivar_bytes(data: &[u8]) -> (r: Option<EfiPartitionGptGuid>)
        ensures
            r == spec_efivar_guid(data@),
    {
        if data.len() < 4 {
            return None;
        }
        let payload: &[u8] = &data[4..data.len()];
        assert(payload@ == data@.skip(4));
        let ghost units = spec_utf16le_units(payload@);
        let n: usize = (payload.len() + 1) / 2;
        let mut text: Vec<u8> = Vec::new();
        let mut i: usize = 0;
        while i < n
            invariant
                i <= n,
                n == (payload@.len() + 1) / 2,
                payload@.len() <= usize::MAX,
                data@.len() >= 4,
                payload@ == data@.skip(4),
                units == spec_utf16le_units(payload@),
                text@.len() == i,
                forall|j: int| 0 <= j < i ==> 0 <= #[trigger] units[j] < 128,
                forall|j: int| 0 <= j < i ==> text@[j] == units[j] as u8,
            decreases n - i,
        {
            let lo = payload[2 * i];
            let unit: u32 = if 2 * i + 1 < payload.len() {
                (lo as u32) + 256 * (payload[2 * i + 1] as u32)
            } else {
                lo as u32
            };
            assert(unit as int == units[i as int]);
            if unit >= 128 {
                assert(!(units[i as int] < 128));
                return None;
            }
            text.push(unit as u8);
            i += 1;
        }
        proof {
            assert(text@ =~= Seq::new(units.len(), |j: int| units[j] as u8));
        }
        match parse_uuid(text.as_slice()) {
            Some(v) => Some(EfiPartitionGptGuid(v)),
            None => None,
        }
    }
}

/// The architectures with a well-known root partition type GUID.
#[derive(Debug, Clone, Copy, PartialEq, Eq, Structural)]
pub enum KernelArch {
    X86_64,
    X86,
    Arm,
    Aarch64,
}

/// The GPT root partition type GUID of each architecture.
pub open spec fn spec_root_type_guid(arch: KernelArch) -> u128 {
    match arch {
        KernelArch::X86_64 => 0x4f68bce3e8cd4db196e7fbcaf984b709,
        KernelArch::X86 => 0x44479540f29741b29af7d131d5f0458a,
        KernelArch::Arm => 0x69dad7102ce44e3cb16c21a1d49abed3,
        KernelArch::Aarch64 => 0xb921b0451df041c3af444c6f280d3fae,
    }
}

/// A parsed partition source, before it is resolved to a device path.
#[derive(Debug, Clone, PartialEq, Eq)]
pub enum PartitionSourceBuilder {
    Uuid(u128),
    Label(Vec<u8>),
    PartUuid(u128),
    PartUuidPartnroff(u128, i64),
    PartType(u128, EfiPartitionGptGuid),
    PartLabel(Vec<u8>),
    RawDevice(Vec<u8>),
}

/// The mathematical shape of a partition source.
pub enum SourceView {
    Uuid(u128),
    Label(Seq<u8>),
    PartUuid(u128),
    PartUuidPartnroff(u128, i64),
    PartType(u128, u128),
    PartLabel(Seq<u8>),
    RawDevice(Seq<u8>),
}

impl View for PartitionSourceBuilder {
    type V = SourceView;

    open spec fn view(&self) -> SourceView {
        match self {
            PartitionSourceBuilder::Uuid(u) => SourceView::Uuid(*u),
            PartitionSourceBuilder::Label(l) => SourceView::Label(l@),
            PartitionSourceBuilder::PartUuid(u) => SourceView::PartUuid(*u),
            PartitionSourceBuilder::PartUuidPartnroff(u, o) => SourceView::PartUuidPartnroff(
                *u,
                *o,
            ),
            PartitionSourceBuilder::PartType(t, g) => SourceView::PartType(*t, g.0),
            PartitionSourceBuilder::PartLabel(l) => SourceView::PartLabel(l@),
            PartitionSourceBuilder::RawDevice(d) => SourceView::RawDevice(d@),
        }
    }
}

/// A `UUID=` style value: quotes stripped, then a UUID spelling.
pub open spec fn spec_uuid_source(t: Seq<u8>) -> Option<SourceView> {
    match spec_parse_uuid(spec_unquote(t)) {
        Some(u) => Some(SourceView::Uuid(u)),
        None => None,
    }
}

/// A `PARTUUID=` style value: optionally `/PARTNROFF=<offset>` after
/// the UUID.
pub open spec fn spec_partuuid_source(t: Seq<u8>) -> Option<SourceView> {
    match spec_find_sub(t, lit::spec_partnroff()) {
        Some(i) => match (
            spec_parse_uuid(spec_unquote(t.subrange(0, i))),
            spec_parse_i64(t.skip(i + 11)),
        ) {
            (Some(u), Some(o)) => Some(SourceView::PartUuidPartnroff(u, o)),
            _ => None,
        },
        None => match spec_parse_uuid(spec_unquote(t)) {
            Some(u) => Some(SourceView::PartUuid(u)),
            None => None,
        },
    }
}

/// What `parse` recognizes, prefix by prefix, first match winning.
pub open spec fn spec_parse_source(s: Seq<u8>) -> Option<SourceView> {
    if is_prefix(lit::spec_uuid_pre(), s) {
        spec_uuid_source(s.skip(5))
    } else if is_prefix(lit::spec_by_uuid(), s) {
        spec_uuid_source(s.skip(18))
    } else if is_prefix(lit::spec_label_pre(), s) {
        Some(SourceView::Label(s.skip(6)))
    } else if is_prefix(lit::spec_by_label(), s) {
        Some(SourceView::Label(s.skip(19)))
    } else if is_prefix(lit::spec_partuuid_pre(), s) {
        spec_partuuid_source(s.skip(9))
    } else if is_prefix(lit::spec_by_partuuid(), s) {
        match spec_parse_uuid(spec_unquote(s.skip(22))) {
            Some(u) => Some(SourceView::PartUuid(u)),
            None => None,
        }
    } else if is_prefix(lit::spec_partlabel_pre(), s) {
        Some(SourceView::PartLabel(s.skip(10)))
    } else if is_prefix(lit::spec_by_partlabel(), s) {
        Some(SourceView::PartLabel(s.skip(23)))
    } else if is_prefix(lit::spec_dev_dir(), s) {
        Some(SourceView::RawDevice(s))
    } else {
        None
    }
}

impl PartitionSourceBuilder {
    /// Parse a `root=` / `resume=` value. `None` means the value
    /// matches no recognized form.
    pub fn parse(root: &[u8]) -> (r: Option<PartitionSourceBuilder>)
        ensures
            (match r {
                Some(p) => Some(p@),
                None => None::<SourceView>,
            }) == spec_parse_source(root@),
    {
        if starts_with(root, lit::lit_uuid_pre().as_slice()) {
            let rest = sub_vec(root, 5, root.len());
            assert(rest@ == root@.skip(5));
            match parse_uuid_quoted(rest.as_slice()) {
                Some(u) => Some(PartitionSourceBuilder::Uuid(u)),
                None => None,
            }
        } else if starts_with(root, lit::lit_by_uuid().as_slice()) {
            let rest = sub_vec(root, 18, root.len());
            assert(rest@ == root@.skip(18));
            match parse_uuid_quoted(rest.as_slice()) {
                Some(u) => Some(PartitionSourceBuilder::Uuid(u)),
                None => None,
            }
        } else if starts_with(root, lit::lit_label_pre().as_slice()) {
            let rest = sub_vec(root, 6, root.len());
            assert(rest@ == root@.skip(6));
            Some(PartitionSourceBuilder::Label(rest))
        } else if starts_with(root, lit::lit_by_label().as_slice()) {
            let rest = sub_vec(root, 19, root.len());
            assert(rest@ == root@.skip(19));
            Some(PartitionSourceBuilder::Label(rest))
        } else if starts_with(root, lit::lit_partuuid_pre().as_slice()) {
            let rest = sub_vec(root, 9, root.len());
            assert(rest@ == root@.skip(9));
            Self::parse_partuuid_partnroff(rest.as_slice())
        } else if starts_with(root, lit::lit_by_partuuid().as_slice()) {
            let rest = sub_vec(root, 22, root.len());
            assert(rest@ == root@.skip(22));
            match parse_uuid_quoted(rest.as_slice()) {
                Some(u) => Some(PartitionSourceBuilder::PartUuid(u)),
                None => None,
            }
        } else if starts_with(root, lit::lit_partlabel_pre().as_slice()) {
            let rest = sub_vec(root, 10, root.len());
            assert(rest@ == root@.skip(10));
            Some(PartitionSourceBuilder::PartLabel(rest))
        } else if starts_with(root, lit::lit_by_partlabel().as_slice()) {
            let rest = sub_vec(root, 23, root.len());
            assert(rest@ == root@.skip(23));
            Some(PartitionSourceBuilder::PartLabel(rest))
        } else if starts_with(root, lit::lit_dev_dir().as_slice()) {
            let whole = sub_vec(root, 0, root.len());
            assert(whole@ =~= root@);
            Some(PartitionSourceBuilder::RawDevice(whole))
        } else {
            None
        }
    }

    /// A `PARTUUID=` value: a UUID, optionally `/PARTNROFF=<offset>`.
    fn parse_partuuid_partnroff(t: &[u8]) -> (r: Option<PartitionSourceBuilder>)
        ensures
            (match r {
                Some(p) => Some(p@),
                None => None::<SourceView>,
            }) == spec_partuuid_source(t@),
    {
        let pat = lit::lit_partnroff();
        match find_sub(t, pat.as_slice()) {
            Some(i) => {
                let tlen = t.len();
                assert(pat@.len() == 11);
                assert(i + 11 <= tlen);
                let upart = sub_vec(t, 0, i);
                assert(upart@ == t@.subrange(0, i as int));
                let off_start: usize = i + 11;
                let opart = sub_vec(t, off_start, tlen);
                assert(opart@ == t@.skip(i + 11));
                match (parse_uuid_quoted(upart.as_slice()), parse_i64_dec(opart.as_slice())) {
                    (Some(u), Some(o)) => Some(PartitionSourceBuilder::PartUuidPartnroff(u, o)),
                    _ => None,
                }
            },
            None => match parse_uuid_quoted(t) {
                Some(u) => Some(PartitionSourceBuilder::PartUuid(u)),
                None => None,
            },
        }
    }

    /// The source that GPT autodiscovery selects: the architecture's
    /// root partition type, on the disk the loader booted from.
    pub fn autodiscover_root(arch: KernelArch, loader_part: EfiPartitionGptGuid) -> (r:
        PartitionSourceBuilder)
        ensures
            r@ == SourceView::PartType(spec_root_type_guid(arch), loader_part.0),
    {
        let t: u128 = match arch {
            KernelArch::X86_64 => 0x4f68bce3e8cd4db196e7fbcaf984b709,
            KernelArch::X86 => 0x44479540f29741b29af7d131d5f0458a,
            KernelArch::Arm => 0x69dad7102ce44e3cb16c21a1d49abed3,
            KernelArch::Aarch64 => 0xb921b0451df041c3af444c6f280d3fae,
        };
        PartitionSourceBuilder::PartType(t, loader_part)
    }
}

/// A value carrying none of the recognized prefixes parses to
/// nothing: the recognized prefix set is exhaustive.
pub proof fn lemma_unrecognized_prefix_rejected(s: Seq<u8>)
    requires
        !is_prefix(lit::spec_uuid_pre(), s),
        !is_prefix(lit::spec_by_uuid(), s),
        !is_prefix(lit::spec_label_pre(), s),
        !is_prefix(lit::spec_by_label(), s),
        !is_prefix(lit::spec_partuuid_pre(), s),
        !is_prefix(lit::spec_by_partuuid(), s),
        !is_prefix(lit::spec_partlabel_pre(), s),
        !is_prefix(lit::spec_by_partlabel(), s),
        !is_prefix(lit::spec_dev_dir(), s),
    ensures
        spec_parse_source(s) is None,
{
}

/// A UUID written in its hyphenated spelling, holding neither `/` nor
/// a quote.
pub open spec fn spec_uuid_text(t: Seq<u8>, u: u128) -> bool {
    &&& spec_hyph_shape(t)
    &&& all_hex(spec_hyph_digits(t))
    &&& hex_msb_val(spec_hyph_digits(t)) == u as int
    &&& forall|i: int| 0 <= i < 36 ==> #[trigger] t[i] != 47 && t[i] != 34
}

/// A source that has a canonical spelling: everything but the
/// autodiscovered `PartType`, and a raw device path only when it
/// collides with no other recognized prefix.
pub open spec fn spec_source_wf(v: SourceView) -> bool {
    match v {
        SourceView::PartType(_, _) => false,
        SourceView::RawDevice(d) => {
            &&& is_prefix(lit::spec_dev_dir(), d)
            &&& !is_prefix(lit::spec_by_uuid(), d)
            &&& !is_prefix(lit::spec_by_label(), d)
            &&& !is_prefix(lit::spec_by_partuuid(), d)
            &&& !is_prefix(lit::spec_by_partlabel(), d)
        },
        _ => true,
    }
}

/// `s` is the canonical spelling of the source `v`. A `PartType`
/// source comes from autodiscovery only and has no spelling. A raw
/// device path is canonical only when it collides with no other
/// recognized prefix.
pub open spec fn spec_canonical_of(s: Seq<u8>, v: SourceView) -> bool {
    match v {
        SourceView::Uuid(u) => {
            &&& s.len() == 41
            &&& is_prefix(lit::spec_uuid_pre(), s)
            &&& spec_uuid_text(s.skip(5), u)
        },
        SourceView::Label(l) => s == lit::spec_label_pre() + l,
        SourceView::PartUuid(u) => {
            &&& s.len() == 45
            &&& is_prefix(lit::spec_partuuid_pre(), s)
            &&& spec_uuid_text(s.skip(9), u)
        },
        SourceView::PartUuidPartnroff(u, o) => {
            &&& s.len() >= 57
            &&& is_prefix(lit::spec_partuuid_pre(), s)
            &&& spec_uuid_text(s.subrange(9, 45), u)
            &&& s.subrange(45, 56) == lit::spec_partnroff()
            &&& spec_parse_i64(s.skip(56)) == Some(o)
        },
        SourceView::PartType(_, _) => false,
        SourceView::PartLabel(l) => s == lit::spec_partlabel_pre() + l,
        SourceView::RawDevice(d) => {
            &&& s == d
            &&& is_prefix(lit::spec_dev_dir(), d)
            &&& !is_prefix(lit::spec_by_uuid(), d)
            &&& !is_prefix(lit::spec_by_label(), d)
            &&& !is_prefix(lit::spec_by_partuuid(), d)
            &&& !is_prefix(lit::spec_by_partlabel(), d)
        },
    }
}

/// Parsing the canonical spelling of a source gives that source back.
///
/// A `PartType` source has no spelling, so no `s` satisfies the
/// premise for it; every other well-formed source round-trips.
#[verifier::rlimit(100)]
#[verifier::spinoff_prover]
pub proof fn lemma_parse_canonical(s: Seq<u8>, v: SourceView)
    requires
        spec_canonical_of(s, v),
    ensures
        spec_parse_source(s) == Some(v),
{
    match v {
        SourceView::Uuid(u) => {
            assert(s[0] == 85);
            let t = s.skip(5);
            assert(spec_unquote(t) == t);
            assert(spec_parse_uuid(t) == Some(u));
        },
        SourceView::Label(l) => {
            assert(s[0] == 76);
            assert(!is_prefix(lit::spec_uuid_pre(), s)) by {
                if is_prefix(lit::spec_uuid_pre(), s) {
                    assert(s.subrange(0, 5)[0] == 85);
                }
            }
            assert(!is_prefix(lit::spec_by_uuid(), s)) by {
                if is_prefix(lit::spec_by_uuid(), s) {
                    assert(s.subrange(0, 18)[0] == 47);
                }
            }
            assert(is_prefix(lit::spec_label_pre(), s)) by {
                assert(s.subrange(0, 6) =~= lit::spec_label_pre());
            }
            assert(s.skip(6) =~= l);
        },
        SourceView::PartUuid(u) => {
            assert(s[0] == 80);
            lemma_not_earlier_for_part(s);
            let t = s.skip(9);
            assert(t.len() == 36);
            lemma_no_partnroff_in_uuid_text(t, u);
            assert(spec_unquote(t) == t);
            assert(spec_parse_uuid(t) == Some(u));
        },
        SourceView::PartUuidPartnroff(u, o) => {
            assert(s[0] == 80);
            lemma_not_earlier_for_part(s);
            let t = s.skip(9);
            let pat = lit::spec_partnroff();
            assert(matches_at(t, pat, 36)) by {
                assert(t.subrange(36, 47) =~= s.subrange(45, 56));
            }
            assert forall|j: int| 0 <= j < 36 implies !matches_at(t, pat, j) by {
                if matches_at(t, pat, j) {
                    assert(t.subrange(j, j + 11)[0] == 47);
                    assert(t[j] == 47);
                    assert(s.subrange(9, 45)[j] == 47);
                }
            }
            assert(is_first_match(t, pat, 36));
            let w = choose|w: int| is_first_match(t, pat, w);
            assert(is_first_match(t, pat, w));
            if w < 36 {
                assert(!matches_at(t, pat, w));
            } else if w > 36 {
                assert(!matches_at(t, pat, 36));
            }
            assert(spec_find_sub(t, pat) == Some(36int));
            assert(t.subrange(0, 36) =~= s.subrange(9, 45));
            assert(spec_unquote(t.subrange(0, 36)) == t.subrange(0, 36));
            assert(spec_parse_uuid(t.subrange(0, 36)) == Some(u));
            assert(t.skip(47) =~= s.skip(56));
        },
        SourceView::PartType(_, _) => {
            assert(false);
        },
        SourceView::PartLabel(l) => {
            assert(s[0] == 80);
            assert(s[4] == 76);
            assert(!is_prefix(lit::spec_uuid_pre(), s)) by {
                if is_prefix(lit::spec_uuid_pre(), s) {
                    assert(s.subrange(0, 5)[0] == 85);
                }
            }
            assert(!is_prefix(lit::spec_by_uuid(), s)) by {
                if is_prefix(lit::spec_by_uuid(), s) {
                    assert(s.subrange(0, 18)[0] == 47);
                }
            }
            assert(!is_prefix(lit::spec_label_pre(), s)) by {
                if is_prefix(lit::spec_label_pre(), s) {
                    assert(s.subrange(0, 6)[0] == 76);
                }
            }
            assert(!is_prefix(lit::spec_by_label(), s)) by {
                if is_prefix(lit::spec_by_label(), s) {
                    assert(s.subrange(0, 19)[0] == 47);
                }
            }
            assert(!is_prefix(lit::spec_partuuid_pre(), s)) by {
                if is_prefix(lit::spec_partuuid_pre(), s) {
                    assert(s.subrange(0, 9)[4] == 85);
                }
            }
            assert(!is_prefix(lit::spec_by_partuuid(), s)) by {
                if is_prefix(lit::spec_by_partuuid(), s) {
                    assert(s.subrange(0, 22)[0] == 47);
                }
            }
            assert(is_prefix(lit::spec_partlabel_pre(), s)) by {
                assert(s.subrange(0, 10) =~= lit::spec_partlabel_pre());
            }
            assert(s.skip(10) =~= l);
        },
        SourceView::RawDevice(d) => {
            assert(s[0] == 47);
            assert(s[1] == 100);
            assert(!is_prefix(lit::spec_uuid_pre(), s)) by {
                if is_prefix(lit::spec_uuid_pre(), s) {
                    assert(s.subrange(0, 5)[0] == 85);
                }
            }
            assert(!is_prefix(lit::spec_label_pre(), s)) by {
                if is_prefix(lit::spec_label_pre(), s) {
                    assert(s.subrange(0, 6)[0] == 76);
                }
            }
            assert(!is_prefix(lit::spec_partuuid_pre(), s)) by {
                if is_prefix(lit::spec_partuuid_pre(), s) {
                    assert(s.subrange(0, 9)[0] == 80);
                }
            }
            assert(!is_prefix(lit::spec_partlabel_pre(), s)) by {
                if is_prefix(lit::spec_partlabel_pre(), s) {
                    assert(s.subrange(0, 10)[0] == 80);
                }
            }
        },
    }
}

/// The `PARTUUID=` and `PARTLABEL=` spellings share no earlier prefix.
proof fn lemma_not_earlier_for_part(s: Seq<u8>)
    requires
        s.len() >= 9,
        is_prefix(lit::spec_partuuid_pre(), s),
    ensures
        !is_prefix(lit::spec_uuid_pre(), s),
        !is_prefix(lit::spec_by_uuid(), s),
        !is_prefix(lit::spec_label_pre(), s),
        !is_prefix(lit::spec_by_label(), s),
{
    assert(s.subrange(0, 9)[0] == 80);
    if is_prefix(lit::spec_uuid_pre(), s) {
        assert(s.subrange(0, 5)[0] == 85);
    }
    if is_prefix(lit::spec_by_uuid(), s) {
        assert(s.subrange(0, 18)[0] == 47);
    }
    if is_prefix(lit::spec_label_pre(), s) {
        assert(s.subrange(0, 6)[0] == 76);
    }
    if is_prefix(lit::spec_by_label(), s) {
        assert(s.subrange(0, 19)[0] == 47);
    }
}

/// A hyphenated UUID spelling holds no slash, so `/PARTNROFF=` cannot
/// occur in it.
proof fn lemma_no_partnroff_in_uuid_text(t: Seq<u8>, u: u128)
    requires
        spec_uuid_text(t, u),
    ensures
        spec_find_sub(t, lit::spec_partnroff()) is None,
{
    let pat = lit::spec_partnroff();
    if exists|w: int| is_first_match(t, pat, w) {
        let w = choose|w: int| is_first_match(t, pat, w);
        assert(matches_at(t, pat, w));
        assert(t.subrange(w, w + 11)[0] == 47);
        assert(t[w] == 47);
    }
}

impl PartitionSourceBuilder {
    /// Write the source back in its canonical spelling. Autodiscovered
    /// `PartType` sources have none.
    pub fn canonicalize(&self) -> (out: Vec<u8>)
        requires
            spec_source_wf(self@),
        ensures
            spec_canonical_of(out@, self@),
    {
        match self {
            PartitionSourceBuilder::Uuid(u) => {
                let mut out = lit::lit_uuid_pre();
                let h = format_uuid(*u);
                push_all(&mut out, h.as_slice());
                proof {
                    assert(out@.subrange(0, 5) =~= lit::spec_uuid_pre());
                    assert(out@.skip(5) =~= h@);
                }
                out
            },
            PartitionSourceBuilder::Label(l) => {
                let mut out = lit::lit_label_pre();
                push_all(&mut out, l.as_slice());
                out
            },
            PartitionSourceBuilder::PartUuid(u) => {
                let mut out = lit::lit_partuuid_pre();
                let h = format_uuid(*u);
                push_all(&mut out, h.as_slice());
                proof {
                    assert(out@.subrange(0, 9) =~= lit::spec_partuuid_pre());
                    assert(out@.skip(9) =~= h@);
                }
                out
            },
            PartitionSourceBuilder::PartUuidPartnroff(u, o) => {
                let mut out = lit::lit_partuuid_pre();
                let h = format_uuid(*u);
                push_all(&mut out, h.as_slice());
                let pat = lit::lit_partnroff();
                push_all(&mut out, pat.as_slice());
                let num = format_i64_dec(*o);
                push_all(&mut out, num.as_slice());
                proof {
                    assert(num@.len() >= 1) by {
                        if num@.len() == 0 {
                            assert(crate::dec::spec_dec_digits(num@).len() == 0);
                        }
                    }
                    assert(out@.subrange(0, 9) =~= lit::spec_partuuid_pre());
                    assert(out@.subrange(9, 45) =~= h@);
                    assert(out@.subrange(45, 56) =~= lit::spec_partnroff());
                    assert(out@.skip(56) =~= num@);
                }
                out
            },
            PartitionSourceBuilder::PartType(_, _) => {
                proof {
                    assert(false);
                }
                Vec::new()
            },
            PartitionSourceBuilder::PartLabel(l) => {
                let mut out = lit::lit_partlabel_pre();
                push_all(&mut out, l.as_slice());
                out
            },
            PartitionSourceBuilder::RawDevice(d) => {
                let out = sub_vec(d.as_slice(), 0, d.len());
                proof {
                    assert(out@ =~= d@);
                }
                out
            },
        }
    }
}

} // verus!
