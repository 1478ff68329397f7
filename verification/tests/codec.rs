use bus2komsi::komsi::KomsiCommandKind;
use bus2komsi::komsi::build_komsi_command;
use bus2komsi::komsi::build_komsi_command_eol;
use bus2komsi::komsi::build_komsi_command_u8;
use bus2komsi::komsi::build_simulator_preamble;

fn parse_decimal_suffix(bytes: &[u8]) -> u64 {
    let text = std::str::from_utf8(&bytes[1..]).expect("decimal suffix is ASCII");
    text.parse().expect("decimal suffix parses")
}

#[test]
fn encode_u8_round_trips_every_value() {
    for v in 0..=255u8 {
        let bytes = build_komsi_command_u8(KomsiCommandKind::Ignition, v);
        assert_eq!(bytes[0], b'A');
        assert_eq!(parse_decimal_suffix(&bytes), v as u64);
    }
}

#[test]
fn encode_u32_round_trips_across_the_range() {
    let samples: Vec<u32> = vec![0, 1, 9, 10, 30, 99, 100, 255, 256, 1000, 65535, 123456789, u32::MAX];
    for v in samples {
        let bytes = build_komsi_command(KomsiCommandKind::Speed, v);
        assert_eq!(bytes[0], b'N');
        assert_eq!(parse_decimal_suffix(&bytes), v as u64);
    }
}

#[test]
fn encode_has_no_leading_zeros() {
    let bytes = build_komsi_command(KomsiCommandKind::Fuel, 30);
    assert_eq!(bytes, b"M30".to_vec());
    let bytes = build_komsi_command(KomsiCommandKind::Fuel, 0);
    assert_eq!(bytes, b"M0".to_vec());
}

#[test]
fn every_kind_has_its_own_prefix() {
    let kinds = bus2komsi::vehicle::command_kind_order();
    let mut prefixes: Vec<u8> = kinds
        .iter()
        .map(|k| build_komsi_command_u8(*k, 0)[0])
        .collect();
    assert_eq!(prefixes.len(), 16);
    prefixes.sort();
    prefixes.dedup();
    assert_eq!(prefixes.len(), 16, "two kinds share a prefix byte");
    assert!(!prefixes.contains(&b'O'), "the preamble identifier is reserved");
}

#[test]
fn eol_marker_is_one_line_feed() {
    assert_eq!(build_komsi_command_eol(), vec![b'\n']);
}

#[test]
fn preamble_identifies_the_simulator() {
    assert_eq!(build_simulator_preamble(), b"O1\n".to_vec());
}
