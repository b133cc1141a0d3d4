use rcli::gen_pass::process_genpass;
use rcli::text::blake3::Blake3;

const UPPER: &[u8] = b"ABCDEFGHJKLMNPQRSTUVWXYZ";
const LOWER: &[u8] = b"abcdefghijkmnopqrstuvwxyz";
const NUMBER: &[u8] = b"123456789";
const SYMBOL: &[u8] = b"!@#$%^&*_";

fn class_of(b: u8) -> Option<&'static str> {
    if UPPER.contains(&b) {
        Some("upper")
    } else if LOWER.contains(&b) {
        Some("lower")
    } else if NUMBER.contains(&b) {
        Some("number")
    } else if SYMBOL.contains(&b) {
        Some("symbol")
    } else {
        None
    }
}

#[test]
fn genpass_has_the_requested_length_and_charset() {
    let pass = process_genpass(16, true, true, true, true);
    assert_eq!(pass.len(), 16);
    for b in &pass {
        assert!(class_of(*b).is_some(), "unexpected byte {}", b);
    }
}

#[test]
fn genpass_represents_every_selected_class() {
    let pass = process_genpass(8, true, true, true, true);
    for want in ["upper", "lower", "number", "symbol"] {
        assert!(
            pass.iter().any(|b| class_of(*b) == Some(want)),
            "missing a {} character",
            want
        );
    }
}

#[test]
fn genpass_respects_deselected_classes() {
    let pass = process_genpass(24, false, true, true, false);
    for b in &pass {
        let class = class_of(*b).unwrap();
        assert!(class == "lower" || class == "number");
    }
}

#[test]
fn genpass_zero_length_is_empty() {
    assert!(process_genpass(0, true, false, false, false).is_empty());
}

#[test]
fn blake3_generate_draws_from_the_full_charset() {
    let keys = Blake3::generate();
    assert_eq!(keys.len(), 1);
    assert_eq!(keys[0].len(), 32);
    for b in &keys[0] {
        assert!(class_of(*b).is_some());
    }
}
