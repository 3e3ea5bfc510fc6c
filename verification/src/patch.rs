//! Overwrites the overlay color constants inside the compiled module,
//! by one of two mutually exclusive strategies selected by the layout
//! mode: a fixed-offset table, or a pattern anchor that locates a small
//! machine-code stub to rewrite.

use vstd::prelude::*;

use crate::color::Colors;
use crate::errors::PatchError;
use crate::layout::LayoutMode;

verus! {

/// Length of the machine-code stub the pattern-anchor strategy writes.
pub const STUB_LEN: usize = 80;

/// Length of the anchor byte sequence the pattern-anchor strategy
/// searches for.
pub const ANCHOR_LEN: usize = 8;

/// Absolute offset of the orange color triple under the fixed-offset
/// strategy.
pub const ORANGE_OFFSET: usize = 0x001c7a3e;

/// Absolute offset of the blue color triple under the fixed-offset
/// strategy.
pub const BLUE_OFFSET: usize = 0x001c7a49;

/// Absolute offset of the carry color triple under the fixed-offset
/// strategy.
pub const CARRY_OFFSET: usize = 0x001c7a54;

/// Whether the anchor sequence starts at position `p` of `m`: the tail
/// of the subroutine block being replaced, followed by padding.
pub open spec fn anchor_at(m: Seq<u8>, p: int) -> bool {
    &&& 0 <= p
    &&& p + ANCHOR_LEN <= m.len()
    &&& m[p] == 0x40
    &&& m[p + 1] == 0x03
    &&& m[p + 2] == 0xFF
    &&& m[p + 3] == 0xC3
    &&& m[p + 4] == 0xCC
    &&& m[p + 5] == 0xCC
    &&& m[p + 6] == 0xCC
    &&& m[p + 7] == 0xCC
}

/// Whether the anchor occurs anywhere in `m`.
pub open spec fn has_anchor(m: Seq<u8>) -> bool {
    exists|p: int| anchor_at(m, p)
}

/// Whether `p` is the position of the first anchor occurrence in `m`.
pub open spec fn is_first_anchor(m: Seq<u8>, p: int) -> bool {
    &&& anchor_at(m, p)
    &&& forall|q: int| 0 <= q < p ==> !anchor_at(m, q)
}

/// The machine-code stub written in front of the anchor, with the
/// current colors baked into its write-color-byte instructions: orange
/// at positions 25, 42 and 46, blue at 54, 58 and 62, carry at 70, 74
/// and 78.
pub open spec fn crosshair_stub(cs: Colors) -> Seq<u8> {
    seq![
        0x8Bu8, 0x44, 0x24, 0x08, 0x83, 0xE8, 0x00, 0x74, 0x37, 0x83, 0xE8, 0x01, 0xB1, 0xFF,
        0x74, 0x20, 0x83, 0xE8, 0x01, 0x8B, 0x44, 0x24, 0x04, 0xC6, 0x00, cs.orange.r, 0xC6, 0x40,
        0x03, 0xFF, 0x74, 0x07, 0x88, 0x48, 0x01, 0x88, 0x48, 0x02, 0xC3, 0xC6, 0x40, 0x01,
        cs.orange.g, 0xC6, 0x40, 0x02, cs.orange.b, 0xC3, 0x8B, 0x44, 0x24, 0x04, 0xC6, 0x00, cs.blue.r, 0xC6,
        0x40, 0x01, cs.blue.g, 0xC6, 0x40, 0x02, cs.blue.b, 0xC3, 0x8B, 0x44, 0x24, 0x04, 0xC6, 0x00,
        cs.carry.r, 0xC6, 0x40, 0x01, cs.carry.g, 0xC6, 0x40, 0x02, cs.carry.b, 0xC6,
    ]
}

/// Whether `j` is one of the nine bytes the fixed-offset strategy
/// overwrites.
pub open spec fn fixed_offset_target(j: int) -> bool {
    ||| ORANGE_OFFSET <= j < ORANGE_OFFSET + 3
    ||| BLUE_OFFSET <= j < BLUE_OFFSET + 3
    ||| CARRY_OFFSET <= j < CARRY_OFFSET + 3
}

/// How a module patched by the pattern-anchor strategy relates to the
/// unpatched module, when the first anchor stands at `p`: the stub
/// occupies the bytes ending at `p` and every other byte is unchanged.
pub open spec fn legacy_patched(oldm: Seq<u8>, newm: Seq<u8>, cs: Colors, p: int) -> bool {
    &&& newm.len() == oldm.len()
    &&& forall|j: int| 0 <= j < p - STUB_LEN ==> newm[j] == oldm[j]
    &&& forall|j: int| p <= j < oldm.len() ==> newm[j] == oldm[j]
    &&& forall|j: int| 0 <= j < STUB_LEN ==> newm[p - STUB_LEN + j] == crosshair_stub(cs)[j]
}

/// Finds the first occurrence of the anchor sequence in `m`, if any.
fn find_anchor(m: &Vec<u8>) -> (r: Option<usize>)
    ensures
        r matches Some(p) ==> is_first_anchor(m@, p as int),
        r is None ==> !has_anchor(m@),
{
    if m.len() < ANCHOR_LEN {
        return None;
    }
    let mut i: usize = 0;
    while i <= m.len() - ANCHOR_LEN
        invariant
            m@.len() >= ANCHOR_LEN,
            i <= m@.len(),
            forall|q: int| 0 <= q < i ==> !anchor_at(m@, q),
        decreases m@.len() - i,
    {
        if m[i] == 0x40 && m[i + 1] == 0x03 && m[i + 2] == 0xFF && m[i + 3] == 0xC3 && m[i + 4]
            == 0xCC && m[i + 5] == 0xCC && m[i + 6] == 0xCC && m[i + 7] == 0xCC {
            return Some(i);
        }
        i = i + 1;
    }
    proof {
        assert forall|p: int| !anchor_at(m@, p) by {
            if 0 <= p && p + ANCHOR_LEN <= m@.len() {
                assert(p < i);
            }
        }
    }
    None
}

/// Writes one byte of a module in place.
fn set_byte(v: &mut Vec<u8>, i: usize, b: u8)
    requires
        i < old(v)@.len(),
    ensures
        final(v)@ == old(v)@.update(i as int, b),
{
    v[i] = b;
}

/// Mutates the module bytes in place so that the in-game overlay uses
/// the chosen colors. Under the repackaged layout nine bytes at three
/// fixed offsets are overwritten; under the legacy layout the anchor
/// sequence is located and the code stub is written immediately before
/// it. Out-of-range positions and a missing anchor are refused before
/// any byte changes; persisting the module is the caller's concern.
pub fn patch(module: &mut Vec<u8>, colors: Colors, mode: LayoutMode) -> (r: Result<
    (),
    PatchError,
>)
    ensures
        final(module)@.len() == old(module)@.len(),
        r is Err ==> final(module)@ == old(module)@,
        mode == LayoutMode::Repackaged ==> {
            &&& (r is Ok <==> old(module)@.len() >= CARRY_OFFSET + 3)
            &&& (r is Err ==> r == Err::<(), PatchError>(PatchError::OffsetOutOfBounds))
            &&& (r is Ok ==> {
                &&& final(module)@[BLUE_OFFSET as int] == colors.blue.r
                &&& final(module)@[BLUE_OFFSET + 1] == colors.blue.g
                &&& final(module)@[BLUE_OFFSET + 2] == colors.blue.b
                &&& final(module)@[ORANGE_OFFSET as int] == colors.orange.r
                &&& final(module)@[ORANGE_OFFSET + 1] == colors.orange.g
                &&& final(module)@[ORANGE_OFFSET + 2] == colors.orange.b
                &&& final(module)@[CARRY_OFFSET as int] == colors.carry.r
                &&& final(module)@[CARRY_OFFSET + 1] == colors.carry.g
                &&& final(module)@[CARRY_OFFSET + 2] == colors.carry.b
                &&& forall|j: int|
                    0 <= j < old(module)@.len() && !fixed_offset_target(j) ==> final(module)@[j]
                        == old(module)@[j]
            })
        },
        mode == LayoutMode::Legacy ==> {
            &&& (r is Ok <==> exists|p: int| is_first_anchor(old(module)@, p) && p >= STUB_LEN)
            &&& (!has_anchor(old(module)@) ==> r == Err::<(), PatchError>(
                PatchError::PatternNotFound,
            ))
            &&& forall|p: int|
                is_first_anchor(old(module)@, p) && p < STUB_LEN ==> r == Err::<(), PatchError>(
                    PatchError::OffsetOutOfBounds,
                )
            &&& forall|p: int|
                is_first_anchor(old(module)@, p) && p >= STUB_LEN ==> legacy_patched(
                    old(module)@,
                    final(module)@,
                    colors,
                    p,
                )
        },
{
    match mode {
        LayoutMode::Repackaged => {
            if module.len() < CARRY_OFFSET + 3 {
                return Err(PatchError::OffsetOutOfBounds);
            }
            set_byte(module, BLUE_OFFSET, colors.blue.r);
            set_byte(module, BLUE_OFFSET + 1, colors.blue.g);
            set_byte(module, BLUE_OFFSET + 2, colors.blue.b);
            set_byte(module, ORANGE_OFFSET, colors.orange.r);
            set_byte(module, ORANGE_OFFSET + 1, colors.orange.g);
            set_byte(module, ORANGE_OFFSET + 2, colors.orange.b);
            set_byte(module, CARRY_OFFSET, colors.carry.r);
            set_byte(module, CARRY_OFFSET + 1, colors.carry.g);
            set_byte(module, CARRY_OFFSET + 2, colors.carry.b);
            Ok(())
        },
        LayoutMode::Legacy => {
            let found = find_anchor(module);
            match found {
                None => Err(PatchError::PatternNotFound),
                Some(n) => {
                    proof {
                        assert(has_anchor(old(module)@)) by {
                            assert(anchor_at(old(module)@, n as int));
                        }
                        assert forall|p: int|
                            is_first_anchor(old(module)@, p) implies p == n as int by {
                            if p < n as int {
                                assert(anchor_at(old(module)@, p));
                            } else if p > n as int {
                                assert(anchor_at(old(module)@, n as int));
                            }
                        }
                    }
                    if n < STUB_LEN {
                        return Err(PatchError::OffsetOutOfBounds);
                    }
                    let pos: usize = n - STUB_LEN;
                    let stub: Vec<u8> = vec![
                        0x8B, 0x44, 0x24, 0x08, 0x83, 0xE8, 0x00, 0x74, 0x37, 0x83, 0xE8, 0x01, 0xB1, 0xFF,
                        0x74, 0x20, 0x83, 0xE8, 0x01, 0x8B, 0x44, 0x24, 0x04, 0xC6, 0x00, colors.orange.r, 0xC6, 0x40,
                        0x03, 0xFF, 0x74, 0x07, 0x88, 0x48, 0x01, 0x88, 0x48, 0x02, 0xC3, 0xC6, 0x40, 0x01,
                        colors.orange.g, 0xC6, 0x40, 0x02, colors.orange.b, 0xC3, 0x8B, 0x44, 0x24, 0x04, 0xC6, 0x00, colors.blue.r, 0xC6,
                        0x40, 0x01, colors.blue.g, 0xC6, 0x40, 0x02, colors.blue.b, 0xC3, 0x8B, 0x44, 0x24, 0x04, 0xC6, 0x00,
                        colors.carry.r, 0xC6, 0x40, 0x01, colors.carry.g, 0xC6, 0x40, 0x02, colors.carry.b, 0xC6,
                    ];
                    proof {
                        assert(stub@ =~= crosshair_stub(colors));
                    }
                    let mut k: usize = 0;
                    while k < STUB_LEN
                        invariant
                            stub@ == crosshair_stub(colors),
                            stub@.len() == STUB_LEN,
                            k <= STUB_LEN,
                            pos <= usize::MAX - STUB_LEN,
                            pos + STUB_LEN <= module@.len(),
                            module@.len() == old(module)@.len(),
                            forall|j: int|
                                0 <= j < module@.len() && !(pos <= j < pos + k) ==> module@[j]
                                    == old(module)@[j],
                            forall|j: int| 0 <= j < k ==> module@[pos + j] == stub@[j],
                        decreases STUB_LEN - k,
                    {
                        let b: u8 = stub[k];
                        set_byte(module, pos + k, b);
                        k = k + 1;
                    }
                    Ok(())
                },
            }
        },
    }
}

} // verus!
