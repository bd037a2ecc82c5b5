use bmg::binary::BmgError;
use bmg::binary::Endian;
use bmg::bmg::CameraType;
use bmg::bmg::MessageBoxType;
use bmg::bmg::MessageType;
use bmg::bmg::INF1Entry;
use bmg::bmg::INF1;
use bmg::bmg::DAT1;
use bmg::font::Color;
use bmg::font::PicIcon;
use bmg::font::SoundId;
use bmg::text::create_event_text;
use bmg::text::decode_units;

fn units(s: &str) -> Vec<u16> {
    s.encode_utf16().collect()
}

#[test]
fn minimal_message_decodes_to_a() {
    let data = [0x41u8, 0x00, 0x00, 0x00];
    let out = decode_units(&data, 0, Endian::Little).expect("decode");
    assert_eq!(out, vec![0x41u16]);
}

#[test]
fn minimal_message_through_get_string() {
    let entry = INF1Entry {
        textaddress: 0,
        cameraid: 0,
        soundid: 0,
        camtype: CameraType::Normal,
        messagetype: MessageType::Talk,
        messageboxtype: MessageBoxType::Normal,
        messageareaid: 0,
        padding: 0,
    };
    let inf1 = INF1 { entrynum: 1, entrysize: 0x12, padding: 0, entries: vec![entry] };
    let dat1 = DAT1 { padding: 0, data: vec![0x41, 0x00, 0x00, 0x00] };
    let s = inf1.get_string(0, &dat1, Endian::Little).expect("decode");
    assert_eq!(s, "A");
}

#[test]
fn newline_record_decodes_and_advances_by_length_minus_one() {
    // marker 0x1A at 0, then the record [len=5, kind=1, value 0x0001]
    let data = [0x1A, 0x05, 0x01, 0x00, 0x01, 0x00, 0x00];
    let mut out = Vec::new();
    let next = create_event_text(&data, &mut out, 1, Endian::Big).expect("expand");
    assert_eq!(out, units("[newline]"));
    // cursor lands len-1 bytes after the position right after the marker
    assert_eq!(next, 1 + (5 - 1));
}

#[test]
fn newline_inside_message() {
    // "A", the newline control record, "B", terminator (big-endian units)
    let data = [0x00, 0x41, 0x1A, 0x05, 0x01, 0x00, 0x01, 0x00, 0x42, 0x00, 0x00];
    let out = decode_units(&data, 0, Endian::Big).expect("decode");
    assert_eq!(out, units("A[newline]B"));
}

#[test]
fn known_icon_renders_its_tag() {
    // icon record: kind 3, value 7 picks the star icon
    let data = [0x1A, 0x06, 0x03, 0x00, 0x07, 0x00];
    let mut out = Vec::new();
    create_event_text(&data, &mut out, 1, Endian::Big).expect("expand");
    assert_eq!(out, units("[icon:star]"));
}

#[test]
fn unknown_icon_renders_its_decimal_code() {
    // icon record with value 9999, out of every known range
    let data = [0x1A, 0x06, 0x03, 0x27, 0x0F, 0x00];
    let mut out = Vec::new();
    create_event_text(&data, &mut out, 1, Endian::Big).expect("expand");
    assert_eq!(out, units("9999"));
}

#[test]
fn waittime_and_center_records() {
    let data = [0x1A, 0x06, 0x01, 0x00, 0x00, 0x2A];
    let mut out = Vec::new();
    create_event_text(&data, &mut out, 1, Endian::Big).expect("expand");
    assert_eq!(out, units("[waittime:42]"));
    let data2 = [0x1A, 0x05, 0x01, 0x00, 0x03];
    let mut out2 = Vec::new();
    create_event_text(&data2, &mut out2, 1, Endian::Big).expect("expand");
    assert_eq!(out2, units("[center]"));
}

#[test]
fn fontsize_records() {
    for (value, expect) in [
        (0u8, "[fontsize:small]"),
        (1, "[fontsize:normal]"),
        (2, "[fontsize:large]"),
        (9, "[fontsize:9]"),
    ] {
        let data = [0x1A, 0x05, 0x04, 0x00, value];
        let mut out = Vec::new();
        create_event_text(&data, &mut out, 1, Endian::Big).expect("expand");
        assert_eq!(out, units(expect));
    }
}

#[test]
fn playername_records() {
    for (nt, expect) in [
        (0u8, "[playername:normal]"),
        (1, "[playername:formal]"),
        (2, "[playername:moustache]"),
        (7, "[playername:7]"),
    ] {
        let data = [0x1A, 0x06, 0x05, 0x00, 0x00, nt];
        let mut out = Vec::new();
        create_event_text(&data, &mut out, 1, Endian::Big).expect("expand");
        assert_eq!(out, units(expect));
    }
}

#[test]
fn integer_and_string_argument_triples() {
    let mut data = vec![0x1A, 0x0D, 0x06, 0x00, 0x03];
    data.extend_from_slice(&300u32.to_be_bytes());
    data.extend_from_slice(&70000u32.to_be_bytes());
    let mut out = Vec::new();
    create_event_text(&data, &mut out, 1, Endian::Big).expect("expand");
    assert_eq!(out, units("[valint:3,300,70000]"));
    data[2] = 0x07;
    let mut out2 = Vec::new();
    create_event_text(&data, &mut out2, 1, Endian::Big).expect("expand");
    assert_eq!(out2, units("[valstr:3,300,70000]"));
}

#[test]
fn color_records() {
    // color 3 is blue
    let data = [0x1A, 0x06, 0xFF, 0x00, 0x00, 0x03];
    let mut out = Vec::new();
    create_event_text(&data, &mut out, 1, Endian::Big).expect("expand");
    assert_eq!(out, units("[color:blue]"));
    // color 12 is out of range: the decimal code
    let data2 = [0x1A, 0x06, 0xFF, 0x00, 0x00, 0x0C];
    let mut out2 = Vec::new();
    create_event_text(&data2, &mut out2, 1, Endian::Big).expect("expand");
    assert_eq!(out2, units("12"));
}

#[test]
fn inline_sound_record() {
    // kind 2: the remaining bytes reinterpreted as code units, big-endian
    let data = [0x1A, 0x0A, 0x02, 0x00, 0x00, 0x00, 0x00, 0x41, 0x00, 0x42];
    let mut out = Vec::new();
    create_event_text(&data, &mut out, 1, Endian::Big).expect("expand");
    assert_eq!(out, units("[sound:AB]"));
}

#[test]
fn odd_sound_body_pads_with_a_zero_unit() {
    // three sound bytes: one full unit, then a lone byte that becomes zero
    let data = [0x1A, 0x09, 0x02, 0x00, 0x00, 0x00, 0x00, 0x41, 0x00];
    let mut out = Vec::new();
    create_event_text(&data, &mut out, 1, Endian::Big).expect("expand");
    let mut expect = units("[sound:A");
    expect.push(0);
    expect.push(b']' as u16);
    assert_eq!(out, expect);
}

#[test]
fn unknown_control_kind_emits_nothing() {
    let data = [0x00, 0x41, 0x1A, 0x05, 0x09, 0x00, 0x00, 0x00, 0x00];
    let out = decode_units(&data, 0, Endian::Big).expect("decode");
    assert_eq!(out, units("A"));
}

#[test]
fn musical_note_pair_becomes_the_eighth_note() {
    let data = [0x26, 0x6A, 0x00, 0x00];
    let out = decode_units(&data, 0, Endian::Big).expect("decode");
    assert_eq!(out, vec![0x266Au16]);
}

#[test]
fn zero_length_control_record_is_truncated() {
    let data = [0x1A, 0x00, 0x01, 0x00, 0x01, 0x00];
    assert_eq!(decode_units(&data, 0, Endian::Big).unwrap_err(), BmgError::TruncatedRecord);
}

#[test]
fn lone_trailing_byte_is_truncated() {
    let data = [0x00, 0x41, 0x07];
    assert_eq!(decode_units(&data, 0, Endian::Big).unwrap_err(), BmgError::TruncatedRecord);
}

#[test]
fn message_ends_at_end_of_data_without_terminator() {
    let data = [0x00, 0x41, 0x00, 0x42];
    let out = decode_units(&data, 0, Endian::Big).expect("decode");
    assert_eq!(out, units("AB"));
}

#[test]
fn has_text_is_false_on_the_terminator() {
    let mk = |addr: u32| INF1Entry {
        textaddress: addr,
        cameraid: 0,
        soundid: 0,
        camtype: CameraType::Normal,
        messagetype: MessageType::Talk,
        messageboxtype: MessageBoxType::Normal,
        messageareaid: 0,
        padding: 0,
    };
    let dat1 = DAT1 { padding: 0, data: vec![0x00, 0x00, 0x41, 0x00, 0x00, 0x00] };
    assert!(!mk(0).has_text(&dat1));
    assert!(mk(2).has_text(&dat1));
}

#[test]
fn get_info_line() {
    let entry = INF1Entry {
        textaddress: 0,
        cameraid: 0,
        soundid: 1,
        camtype: CameraType::NoCam,
        messagetype: MessageType::Shout,
        messageboxtype: MessageBoxType::SignBoard,
        messageareaid: 0,
        padding: 0,
    };
    assert_eq!(
        entry.get_info(),
        "[type:Shout][boxtype:SignBoard][sound:SeSvKinopioTalkHey][cam:NoCam]"
    );
}

#[test]
fn sound_names_over_their_ranges() {
    assert_eq!(SoundId::as_string(0), "None");
    assert_eq!(SoundId::as_string(62), "SeSvTicoTalkHappy");
    assert_eq!(SoundId::as_string(63), "63");
    assert_eq!(SoundId::as_string(64), "SeSvTicoTico");
    assert_eq!(SoundId::as_string(80), "80");
    assert_eq!(SoundId::as_string(85), "SeSvHoneyqueenTalkSurprise");
    assert_eq!(SoundId::as_string(161), "SeSvCaretakerAngryFast");
    assert_eq!(SoundId::as_string(162), "162");
}

#[test]
fn icon_and_color_lookups() {
    assert!(PicIcon::new(43).is_some());
    assert!(PicIcon::new(44).is_none());
    assert!(PicIcon::new(48).is_none());
    assert!(PicIcon::new(49).is_some());
    assert!(PicIcon::new(54).is_some());
    assert!(PicIcon::new(55).is_none());
    assert_eq!(PicIcon::new(7).unwrap().as_utf16(), units("[icon:star]"));
    assert_eq!(Color::new(0).unwrap().as_utf16(), units("[color:black]"));
    assert!(Color::new(12).is_none());
}
