use portal_tools::Color;
use portal_tools::Colors;
use portal_tools::PatchError;
use portal_tools::layout::LayoutMode;
use portal_tools::patch::BLUE_OFFSET;
use portal_tools::patch::CARRY_OFFSET;
use portal_tools::patch::ORANGE_OFFSET;
use portal_tools::patch::STUB_LEN;
use portal_tools::patch::patch;

const ANCHOR: [u8; 8] = [0x40, 0x03, 0xFF, 0xC3, 0xCC, 0xCC, 0xCC, 0xCC];

fn test_colors() -> Colors {
    Colors {
        blue: Color { r: 0x40, g: 0xA0, b: 0xFF },
        orange: Color { r: 0xFF, g: 0x9A, b: 0x00 },
        carry: Color { r: 0xF2, g: 0xCA, b: 0xA7 },
    }
}

fn expected_stub(cs: Colors) -> Vec<u8> {
    let bl = cs.blue;
    let or = cs.orange;
    let ca = cs.carry;
    vec![
        0x8B, 0x44, 0x24, 0x08, 0x83, 0xE8, 0x00, 0x74, 0x37, 0x83, 0xE8, 0x01, 0xB1, 0xFF,
        0x74, 0x20, 0x83, 0xE8, 0x01, 0x8B, 0x44, 0x24, 0x04, 0xC6, 0x00, or.r, 0xC6, 0x40,
        0x03, 0xFF, 0x74, 0x07, 0x88, 0x48, 0x01, 0x88, 0x48, 0x02, 0xC3, 0xC6, 0x40, 0x01,
        or.g, 0xC6, 0x40, 0x02, or.b, 0xC3, 0x8B, 0x44, 0x24, 0x04, 0xC6, 0x00, bl.r, 0xC6,
        0x40, 0x01, bl.g, 0xC6, 0x40, 0x02, bl.b, 0xC3, 0x8B, 0x44, 0x24, 0x04, 0xC6, 0x00,
        ca.r, 0xC6, 0x40, 0x01, ca.g, 0xC6, 0x40, 0x02, ca.b, 0xC6,
    ]
}

#[test]
fn fixed_offset_patch_writes_nine_bytes_only() {
    let cs = test_colors();
    let len = CARRY_OFFSET + 3 + 10;
    let mut module = vec![0xEEu8; len];
    let before = module.clone();
    patch(&mut module, cs, LayoutMode::Repackaged).unwrap();
    assert_eq!(module[BLUE_OFFSET], cs.blue.r);
    assert_eq!(module[BLUE_OFFSET + 1], cs.blue.g);
    assert_eq!(module[BLUE_OFFSET + 2], cs.blue.b);
    assert_eq!(module[ORANGE_OFFSET], cs.orange.r);
    assert_eq!(module[ORANGE_OFFSET + 1], cs.orange.g);
    assert_eq!(module[ORANGE_OFFSET + 2], cs.orange.b);
    assert_eq!(module[CARRY_OFFSET], cs.carry.r);
    assert_eq!(module[CARRY_OFFSET + 1], cs.carry.g);
    assert_eq!(module[CARRY_OFFSET + 2], cs.carry.b);
    for j in 0..len {
        let target = (ORANGE_OFFSET..ORANGE_OFFSET + 3).contains(&j)
            || (BLUE_OFFSET..BLUE_OFFSET + 3).contains(&j)
            || (CARRY_OFFSET..CARRY_OFFSET + 3).contains(&j);
        if !target {
            assert_eq!(module[j], before[j]);
        }
    }
}

#[test]
fn fixed_offset_patch_rejects_short_module() {
    let cs = test_colors();
    let mut module = vec![0xEEu8; CARRY_OFFSET + 2];
    let before = module.clone();
    assert_eq!(
        patch(&mut module, cs, LayoutMode::Repackaged),
        Err(PatchError::OffsetOutOfBounds)
    );
    assert_eq!(module, before);
}

#[test]
fn anchor_patch_writes_stub_before_anchor() {
    let cs = test_colors();
    let anchor_pos = 200;
    let mut module = vec![0xABu8; 300];
    module[anchor_pos..anchor_pos + 8].copy_from_slice(&ANCHOR);
    let before = module.clone();
    patch(&mut module, cs, LayoutMode::Legacy).unwrap();
    let stub = expected_stub(cs);
    assert_eq!(stub.len(), STUB_LEN);
    assert_eq!(&module[anchor_pos - STUB_LEN..anchor_pos], &stub[..]);
    for j in 0..module.len() {
        if !(anchor_pos - STUB_LEN..anchor_pos).contains(&j) {
            assert_eq!(module[j], before[j]);
        }
    }
}

#[test]
fn anchor_patch_at_exact_stub_length() {
    let cs = test_colors();
    let mut module = vec![0x00u8; 100];
    module[STUB_LEN..STUB_LEN + 8].copy_from_slice(&ANCHOR);
    patch(&mut module, cs, LayoutMode::Legacy).unwrap();
    assert_eq!(&module[0..STUB_LEN], &expected_stub(cs)[..]);
}

#[test]
fn anchor_patch_uses_first_match() {
    let cs = test_colors();
    let mut module = vec![0x55u8; 400];
    module[100..108].copy_from_slice(&ANCHOR);
    module[300..308].copy_from_slice(&ANCHOR);
    let before = module.clone();
    patch(&mut module, cs, LayoutMode::Legacy).unwrap();
    assert_eq!(&module[100 - STUB_LEN..100], &expected_stub(cs)[..]);
    for j in 108..module.len() {
        assert_eq!(module[j], before[j]);
    }
}

#[test]
fn anchor_patch_missing_anchor_fails_without_mutation() {
    let cs = test_colors();
    let mut module = vec![0xABu8; 300];
    let before = module.clone();
    assert_eq!(
        patch(&mut module, cs, LayoutMode::Legacy),
        Err(PatchError::PatternNotFound)
    );
    assert_eq!(module, before);
}

#[test]
fn anchor_patch_too_close_to_start_fails_without_mutation() {
    let cs = test_colors();
    let mut module = vec![0xABu8; 300];
    module[50..58].copy_from_slice(&ANCHOR);
    let before = module.clone();
    assert_eq!(
        patch(&mut module, cs, LayoutMode::Legacy),
        Err(PatchError::OffsetOutOfBounds)
    );
    assert_eq!(module, before);
}

#[test]
fn patch_error_messages() {
    assert_eq!(PatchError::PatternNotFound.message(), "invalid client.dll");
    assert_eq!(PatchError::OffsetOutOfBounds.message(), "patch offset out of range");
}
