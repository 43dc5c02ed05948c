use nes_core::opcodes::lookup_opcode;
use nes_core::opcodes::Mode;
use nes_core::opcodes::OpEntry;

#[test]
fn table_is_total_with_the_documented_official_count() {
    let mut official = 0usize;
    for b in 0u16..=0xff {
        // every byte value resolves to some entry, none panics
        match lookup_opcode(b as u8) {
            OpEntry::Official(_) => official += 1,
            OpEntry::Unimplemented => {}
        }
    }
    assert_eq!(official, 151);
}

#[test]
fn official_entries_have_plausible_shape() {
    for b in 0u16..=0xff {
        if let OpEntry::Official(info) = lookup_opcode(b as u8) {
            assert!((1..=3).contains(&info.len), "opcode {b:#04x}");
            assert!((2..=7).contains(&info.cycles), "opcode {b:#04x}");
            let expected_len: u8 = match info.mode {
                Mode::Implied | Mode::Accumulator => 1,
                Mode::Immediate
                | Mode::ZeroPage
                | Mode::ZeroPageX
                | Mode::ZeroPageY
                | Mode::IndirectX
                | Mode::IndirectY
                | Mode::Relative => 2,
                Mode::Absolute | Mode::AbsoluteX | Mode::AbsoluteY | Mode::Indirect => 3,
            };
            assert_eq!(info.len, expected_len, "opcode {b:#04x}");
        }
    }
}

#[test]
fn page_penalty_only_on_indexed_reads() {
    for b in 0u16..=0xff {
        if let OpEntry::Official(info) = lookup_opcode(b as u8) {
            if info.page_penalty {
                assert!(matches!(
                    info.mode,
                    Mode::AbsoluteX | Mode::AbsoluteY | Mode::IndirectY
                ));
            }
        }
    }
}

#[test]
fn well_known_entries() {
    match lookup_opcode(0xa9) {
        OpEntry::Official(info) => {
            assert!(matches!(info.mode, Mode::Immediate));
            assert_eq!(info.len, 2);
            assert_eq!(info.cycles, 2);
            assert!(!info.page_penalty);
        }
        OpEntry::Unimplemented => panic!("0xA9 must be official"),
    }
    assert!(matches!(lookup_opcode(0x02), OpEntry::Unimplemented));
    assert!(matches!(lookup_opcode(0xff), OpEntry::Unimplemented));
}
