//! The virtual console keymap structures. The console itself is set
//! up by the process around the library, with the values chosen here.

use vstd::prelude::*;

verus! {

/// The keyboard mode selecting UTF-8 handling.
pub const K_XLATE: i32 = 0x01;

/// The keyboard mode selecting raw translation.
pub const K_UNICODE: i32 = 0x03;

/// One keymap table entry, as the kernel ioctl takes it.
#[derive(Debug, Clone, Copy, PartialEq, Eq, Structural)]
pub struct KbEntry {
    pub kb_table: u8,
    pub kb_index: u8,
    pub kb_value: u16,
}

/// The keyboard mode and the terminal control bytes of a console:
/// UTF-8 wants `K_UNICODE` and the escape `%G`, everything else
/// `K_XLATE` and the escape `%@`.
pub fn keymap_mode(is_utf8: bool) -> (r: (i32, Vec<u8>))
    ensures
        is_utf8 ==> r.0 == K_UNICODE && r.1@ == seq![27u8, 37u8, 71u8],
        !is_utf8 ==> r.0 == K_XLATE && r.1@ == seq![27u8, 37u8, 64u8],
{
    if is_utf8 {
        let ctrl: Vec<u8> = vec![27u8, 37u8, 71u8];
        proof {
            assert(ctrl@ =~= seq![27u8, 37u8, 71u8]);
        }
        (K_UNICODE, ctrl)
    } else {
        let ctrl: Vec<u8> = vec![27u8, 37u8, 64u8];
        proof {
            assert(ctrl@ =~= seq![27u8, 37u8, 64u8]);
        }
        (K_XLATE, ctrl)
    }
}

} // verus!
