use bmg::binary::BmgError;
use bmg::binary::Endian;
use bmg::bmg::FLW1Entry;
use bmg::bmg::EntryCondition;
use bmg::bmg::EntryEvent;
use bmg::bmg::EntryText;
use bmg::bmg::MessageBoxType;
use bmg::bmg::BMG;
use bmg::bmg::FLW1;

fn u32b(v: u32, big: bool) -> [u8; 4] {
    if big {
        v.to_be_bytes()
    } else {
        v.to_le_bytes()
    }
}

fn u16b(v: u16, big: bool) -> [u8; 2] {
    if big {
        v.to_be_bytes()
    } else {
        v.to_le_bytes()
    }
}

/// A two-section file (one message table entry, one text blob holding "A")
/// in either byte order, with a choice of magic.
fn sample_file(magic: &[u8; 8], big: bool) -> Vec<u8> {
    let mut f = Vec::new();
    f.extend_from_slice(magic);
    f.extend_from_slice(&u32b(0x20, big));
    f.extend_from_slice(&u32b(2, big));
    f.extend_from_slice(&[0u8; 16]);
    // INF1 section: 8-byte header + 8-byte table header + one 12-byte entry
    f.extend_from_slice(b"INF1");
    f.extend_from_slice(&u32b(28, big));
    f.extend_from_slice(&u16b(1, big));
    f.extend_from_slice(&u16b(0x12, big));
    f.extend_from_slice(&u32b(0, big));
    f.extend_from_slice(&u32b(0, big)); // textaddress
    f.extend_from_slice(&u16b(7, big)); // cameraid
    f.push(1); // soundid
    f.push(0); // camtype
    f.push(0); // messagetype
    f.push(4); // messageboxtype: SignBoard
    f.push(9); // messageareaid
    f.push(0); // padding
    while f.len() % 32 != 0 {
        f.push(0);
    }
    // DAT1 section: padding byte, then the units of "A" and the terminator
    f.extend_from_slice(b"DAT1");
    f.extend_from_slice(&u32b(13, big));
    f.push(0);
    if big {
        f.extend_from_slice(&[0x00, 0x41, 0x00, 0x00]);
    } else {
        f.extend_from_slice(&[0x41, 0x00, 0x00, 0x00]);
    }
    while f.len() % 32 != 0 {
        f.push(0);
    }
    f
}

fn check_sample(bmg: &BMG) {
    assert_eq!(bmg.header.sectioncount, 2);
    assert_eq!(bmg.header.flw1offset, 0x20);
    let inf1 = bmg.get_inf1().expect("message table");
    assert_eq!(inf1.entrynum, 1);
    assert_eq!(inf1.entrysize, 0x12);
    assert_eq!(inf1.entries.len(), 1);
    assert_eq!(inf1.entries[0].cameraid, 7);
    assert_eq!(inf1.entries[0].soundid, 1);
    assert_eq!(inf1.entries[0].messageareaid, 9);
    assert!(matches!(inf1.entries[0].messageboxtype, MessageBoxType::SignBoard));
    let dat1 = bmg.get_dat1().expect("text blob");
    assert_eq!(dat1.data[..4], [if bmg.header.magic[0] == b'M' { 0x00 } else { 0x41 }, if bmg.header.magic[0] == b'M' { 0x41 } else { 0x00 }, 0x00, 0x00]);
    assert!(bmg.get_flw1().is_none());
}

#[test]
fn big_endian_magic_decodes() {
    let f = sample_file(b"MESGbmg1", true);
    let bmg = BMG::read(&f).expect("decode");
    assert!(matches!(bmg.header.endian(), Endian::Big));
    check_sample(&bmg);
}

#[test]
fn little_endian_magic_decodes() {
    let f = sample_file(b"GSEM1gmb", false);
    let bmg = BMG::read(&f).expect("decode");
    assert!(matches!(bmg.header.endian(), Endian::Little));
    check_sample(&bmg);
}

#[test]
fn unknown_magic_falls_back_to_default_order() {
    let f = sample_file(b"XXXXXXXX", false);
    let bmg = BMG::read(&f).expect("an unknown magic is not an error");
    assert!(matches!(bmg.header.endian(), Endian::Little));
    check_sample(&bmg);
}

#[test]
fn both_orders_decode_the_same_values() {
    let be = BMG::read(&sample_file(b"MESGbmg1", true)).unwrap();
    let le = BMG::read(&sample_file(b"GSEM1gmb", false)).unwrap();
    let ib = be.get_inf1().unwrap();
    let il = le.get_inf1().unwrap();
    assert_eq!(ib.entrynum, il.entrynum);
    assert_eq!(ib.entries[0].textaddress, il.entries[0].textaddress);
    assert_eq!(ib.entries[0].cameraid, il.entries[0].cameraid);
    assert_eq!(be.header.sectioncount, le.header.sectioncount);
}

#[test]
fn message_box_type_byte_round_trip() {
    assert!(matches!(MessageBoxType::from_byte(0), MessageBoxType::Normal));
    assert!(matches!(MessageBoxType::from_byte(4), MessageBoxType::SignBoard));
    assert!(matches!(MessageBoxType::from_byte(1), MessageBoxType::Normal));
    assert!(matches!(MessageBoxType::from_byte(255), MessageBoxType::Normal));
    assert_eq!(MessageBoxType::from_byte(0).to_byte(), 0);
    assert_eq!(MessageBoxType::from_byte(4).to_byte(), 4);
    assert_eq!(MessageBoxType::from_byte(77).to_byte(), 0);
}

#[test]
fn short_header_is_malformed() {
    assert_eq!(BMG::read(&[0u8; 31]).unwrap_err(), BmgError::MalformedContainer);
}

#[test]
fn unknown_section_tag_is_malformed() {
    let mut f = sample_file(b"MESGbmg1", true);
    f[32] = b'Z';
    assert_eq!(BMG::read(&f).unwrap_err(), BmgError::MalformedContainer);
}

#[test]
fn section_past_buffer_end_is_malformed() {
    let mut f = sample_file(b"MESGbmg1", true);
    // declare a section size far past the end of the buffer
    f[36..40].copy_from_slice(&u32b(100_000, true));
    assert_eq!(BMG::read(&f).unwrap_err(), BmgError::MalformedContainer);
}

#[test]
fn truncated_message_record_is_truncated() {
    let mut f = sample_file(b"MESGbmg1", true);
    // claim more entries than the table holds
    f[40..42].copy_from_slice(&u16b(900, true));
    assert_eq!(BMG::read(&f).unwrap_err(), BmgError::TruncatedRecord);
}

fn flw1_bytes(big: bool) -> Vec<u8> {
    let mut b = Vec::new();
    b.extend_from_slice(&u16b(3, big)); // nodenum
    b.extend_from_slice(&u16b(2, big)); // branchnodenum
    b.extend_from_slice(&u32b(0, big));
    // Text node: message 5, successor 1
    b.push(1);
    b.push(0);
    b.extend_from_slice(&u16b(5, big));
    b.extend_from_slice(&u16b(1, big));
    b.push(1);
    b.push(0);
    // Condition node: type 0, arg 0, branch pair at 0
    b.push(2);
    b.push(0);
    b.extend_from_slice(&u16b(0, big));
    b.extend_from_slice(&u16b(0, big));
    b.extend_from_slice(&u16b(0, big));
    // Event node: type 2, branch slot at sentinel, argument 1234
    b.push(3);
    b.push(2);
    b.extend_from_slice(&u16b(0xFFFF, big));
    b.extend_from_slice(&u32b(1234, big));
    // branch table: true target 2, false target none
    b.extend_from_slice(&u16b(2, big));
    b.extend_from_slice(&u16b(0xFFFF, big));
    b
}

#[test]
fn flow_section_decodes_nodes_and_branch_table() {
    let bytes = flw1_bytes(true);
    let flw1 = FLW1::read(&bytes, 0, Endian::Big).expect("decode");
    assert_eq!(flw1.nodenum, 3);
    assert_eq!(flw1.branchnodenum, 2);
    assert_eq!(flw1.entries.len(), 3);
    assert_eq!(flw1.branch_nodes, vec![2, 0xFFFF]);
    match flw1.entries[0] {
        FLW1Entry::Text(t) => {
            assert_eq!(t.textid, 5);
            assert_eq!(t.nexttextid, 1);
        },
        _ => panic!("node 0 should be a text node"),
    }
    match flw1.entries[2] {
        FLW1Entry::Event(ev) => {
            assert_eq!(ev.event_type, 2);
            assert_eq!(ev.branchnodeid, 0xFFFF);
            assert_eq!(ev.arg, 1234);
        },
        _ => panic!("node 2 should be an event node"),
    }
}

#[test]
fn flow_section_decodes_the_same_in_both_orders() {
    let be = FLW1::read(&flw1_bytes(true), 0, Endian::Big).unwrap();
    let le = FLW1::read(&flw1_bytes(false), 0, Endian::Little).unwrap();
    assert_eq!(be.nodenum, le.nodenum);
    assert_eq!(be.branchnodenum, le.branchnodenum);
    assert_eq!(be.entries, le.entries);
    assert_eq!(be.branch_nodes, le.branch_nodes);
}

#[test]
fn unknown_flow_tag_is_malformed() {
    let mut bytes = flw1_bytes(true);
    bytes[8] = 9;
    assert_eq!(FLW1::read(&bytes, 0, Endian::Big).unwrap_err(), BmgError::MalformedContainer);
}

#[test]
fn truncated_flow_node_is_truncated() {
    let bytes = flw1_bytes(true);
    assert_eq!(FLW1::read(&bytes[..12], 0, Endian::Big).unwrap_err(), BmgError::TruncatedRecord);
}

#[test]
fn a_file_with_all_four_sections() {
    let mut f = Vec::new();
    f.extend_from_slice(b"MESGbmg1");
    f.extend_from_slice(&u32b(0x20, true));
    f.extend_from_slice(&u32b(4, true));
    f.extend_from_slice(&[0u8; 16]);
    f.extend_from_slice(b"INF1");
    f.extend_from_slice(&u32b(28, true));
    f.extend_from_slice(&u16b(1, true));
    f.extend_from_slice(&u16b(0x12, true));
    f.extend_from_slice(&u32b(0, true));
    f.extend_from_slice(&u32b(0, true));
    f.extend_from_slice(&u16b(0, true));
    f.extend_from_slice(&[0u8; 6]);
    while f.len() % 32 != 0 {
        f.push(0);
    }
    f.extend_from_slice(b"DAT1");
    f.extend_from_slice(&u32b(11, true));
    f.extend_from_slice(&[0, 0x00, 0x00]);
    while f.len() % 32 != 0 {
        f.push(0);
    }
    let flw1_start = f.len();
    f.extend_from_slice(b"FLW1");
    let body = flw1_bytes(true);
    f.extend_from_slice(&u32b(8 + body.len() as u32, true));
    f.extend_from_slice(&body);
    while f.len() % 32 != 0 {
        f.push(0);
    }
    f.extend_from_slice(b"FLI1");
    f.extend_from_slice(&u32b(16, true));
    f.extend_from_slice(&u16b(3, true));
    f.push(8);
    f.extend_from_slice(&[0u8; 5]);
    while f.len() % 32 != 0 {
        f.push(0);
    }
    let bmg = BMG::read(&f).expect("decode");
    assert_eq!(bmg.sections.len(), 4);
    let flw1 = bmg.get_flw1().expect("flow graph");
    assert_eq!(flw1.nodenum, 3);
    assert_eq!(flw1.branch_nodes, vec![2, 0xFFFF]);
    assert!(flw1.has_flow(5));
    assert!(flw1_start > 0);
}

#[test]
fn text_blob_keeps_the_section_alignment_padding() {
    let f = sample_file(b"MESGbmg1", true);
    let bmg = BMG::read(&f).unwrap();
    let dat1 = bmg.get_dat1().unwrap();
    // the blob runs to the 32-byte-padded section end, minus tag, size and
    // the one leading padding byte
    assert_eq!(dat1.data.len(), 32 - 8 - 1);
    assert_eq!(dat1.padding, 0);
}

#[test]
fn flow_entry_write_read_round_trip() {
    let entries = [
        FLW1Entry::Text(EntryText { unk: 3, textid: 5, nexttextid: 0xFFFF, validity: 1, unk2: 9 }),
        FLW1Entry::Condition(EntryCondition { unk: 0, conditiontype: 2, arg: 7, branchnodeid: 4 }),
        FLW1Entry::Event(EntryEvent { event_type: 6, branchnodeid: 1, arg: 0xDEADBEEF }),
    ];
    for e in [Endian::Big, Endian::Little] {
        for entry in entries.iter() {
            let mut out = Vec::new();
            entry.write(&mut out, e);
            assert_eq!(out.len(), 8);
            let (back, next) = FLW1Entry::read(&out, 0, e).expect("read back");
            assert_eq!(back, *entry);
            assert_eq!(next, 8);
        }
    }
}
