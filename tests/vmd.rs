use encoding_rs::SHIFT_JIS;
use mmd::{ByteReader, CameraFrame, Error, LightFrame, MotionFrame, ShadowFrame, SkinFrame, Vmd, VmdHeader};

const MAGIC: &[u8] = b"Vocaloid Motion Data 0002\0";

fn sjis_field(text: &str, size: usize, pad: u8) -> Vec<u8> {
    let (bytes, _, unmappable) = SHIFT_JIS.encode(text);
    assert!(!unmappable);
    let mut out = bytes.into_owned();
    assert!(out.len() < size);
    out.push(0);
    while out.len() < size {
        out.push(pad);
    }
    out
}

fn header_bytes(model_name: &str, pad: u8) -> Vec<u8> {
    let mut out = MAGIC.to_vec();
    out.resize(30, 0);
    out.extend(sjis_field(model_name, 20, pad));
    out
}

fn motion_record(name: &str, frame_no: u32) -> Vec<u8> {
    let mut out = sjis_field(name, 15, 0);
    out.extend(frame_no.to_le_bytes());
    for v in [0.0f32, 0.0, 0.0, 0.0, 0.0, 0.0, 1.0] {
        out.extend(v.to_bits().to_le_bytes());
    }
    out.extend([0u8; 64]);
    out
}

fn motion_section(names: &[&str]) -> Vec<u8> {
    let mut out = (names.len() as u32).to_le_bytes().to_vec();
    for (i, name) in names.iter().enumerate() {
        out.extend(motion_record(name, i as u32));
    }
    out
}

fn util_test_vmd_header(bytes: Vec<u8>, model_name: &str) {
    let header = VmdHeader::read(&mut ByteReader::new(bytes)).unwrap();
    assert_eq!(header.model_name, model_name);
}

#[test]
fn test_vmd_header_motion() {
    util_test_vmd_header(header_bytes("初音ミク", 0), "初音ミク");
}

#[test]
fn test_vmd_header_camera() {
    util_test_vmd_header(header_bytes("カメラ・照明", 0), "カメラ・照明");
}

#[test]
fn test_vmd_header_issue1() {
    // The name is followed by a zero and then 0xfd filler.
    util_test_vmd_header(header_bytes("初音ミク", 0xfd), "初音ミク");
}

#[test]
fn test_vmd_frame_motion() {
    let mut bytes = header_bytes("初音ミク", 0);
    let names: Vec<&str> = (0..164).map(|i| if i == 0 { "センター" } else { "左足ＩＫ" }).collect();
    bytes.extend(motion_section(&names));
    let mut cursor = ByteReader::new(bytes);
    VmdHeader::read(&mut cursor).unwrap();

    let frame = MotionFrame::read_all(&mut cursor).unwrap();

    assert_eq!(frame.len(), 164);
    assert_eq!(frame[0].name, "センター");
    assert_eq!(frame[0].frame_no, 0);
}

#[test]
fn test_vmd_frame_camera() {
    let mut bytes = header_bytes("カメラ・照明", 0);
    bytes.extend(motion_section(&[]));
    let mut cursor = ByteReader::new(bytes);
    VmdHeader::read(&mut cursor).unwrap();

    let frame = MotionFrame::read_all(&mut cursor).unwrap();

    assert_eq!(frame.len(), 0);
}

#[test]
fn test_vmd_frame_issue1() {
    let mut bytes = header_bytes("初音ミク", 0xfd);
    bytes.extend(motion_section(&["左目", "右目", "両目", "左目", "右目", "両目", "頭"]));
    let mut cursor = ByteReader::new(bytes);
    VmdHeader::read(&mut cursor).unwrap();

    let frame = MotionFrame::read_all(&mut cursor).unwrap();

    assert_eq!(frame.len(), 7);
    assert_eq!(frame[0].name, "左目");
    assert_eq!(frame[0].frame_no, 0);
}

fn empty_file() -> Vec<u8> {
    let mut bytes = MAGIC.to_vec();
    bytes.resize(30, 0);
    bytes.extend([0u8; 20]);
    for _ in 0..5 {
        bytes.extend(0u32.to_le_bytes());
    }
    bytes
}

#[test]
fn empty_file_decodes_to_empty_sections() {
    let mut r = ByteReader::new(empty_file());
    let vmd = Vmd::read(&mut r).unwrap();
    assert_eq!(vmd.header.model_name, "");
    assert!(vmd.motion_frames.is_empty());
    assert!(vmd.skin_frames.is_empty());
    assert!(vmd.camera_frames.is_empty());
    assert!(vmd.light_frames.is_empty());
    assert!(vmd.shadow_frames.is_empty());
    assert_eq!(r.offset(), 70);
    assert_eq!(r.len_remaining(), 0);
}

#[test]
fn motion_frame_record_decodes() {
    let mut r = ByteReader::new(motion_record("センター", 0));
    let f = MotionFrame::read(&mut r).unwrap();
    assert_eq!(f.name, "センター");
    assert_eq!(f.frame_no, 0);
    assert_eq!(f.position, [0, 0, 0]);
    assert_eq!(f.rotation, [0, 0, 0, 1.0f32.to_bits()]);
    assert_eq!(f.interpolation, [0u8; 64]);
    assert_eq!(r.offset(), 111);
}

#[test]
fn motion_frame_fields_little_endian() {
    let mut bytes = sjis_field("頭", 15, 0);
    bytes.extend(0x0102_0304u32.to_le_bytes());
    for v in [1.5f32, -2.0, 3.25, 0.5, 0.25, 0.125, 1.0] {
        bytes.extend(v.to_bits().to_le_bytes());
    }
    bytes.extend((0..64u8).collect::<Vec<u8>>());
    let f = MotionFrame::read(&mut ByteReader::new(bytes)).unwrap();
    assert_eq!(f.name, "頭");
    assert_eq!(f.frame_no, 0x0102_0304);
    assert_eq!(f32::from_bits(f.position[0]), 1.5);
    assert_eq!(f32::from_bits(f.position[1]), -2.0);
    assert_eq!(f32::from_bits(f.rotation[3]), 1.0);
    assert_eq!(f.interpolation[63], 63);
}

#[test]
fn whole_file_reads_every_section_in_order() {
    let mut bytes = header_bytes("初音ミク", 0);
    bytes.extend(motion_section(&["センター", "頭"]));
    let kinds: [(usize, usize); 4] = [(2, 23), (1, 61), (1, 28), (3, 9)];
    for (count, size) in kinds {
        bytes.extend((count as u32).to_le_bytes());
        for i in 0..count {
            bytes.extend(vec![(i as u8) + 1; size]);
        }
    }
    let total = bytes.len();
    let mut r = ByteReader::new(bytes);
    let vmd = Vmd::read(&mut r).unwrap();
    assert_eq!(vmd.header.model_name, "初音ミク");
    assert_eq!(vmd.motion_frames.len(), 2);
    assert_eq!(vmd.motion_frames[1].name, "頭");
    assert_eq!(vmd.motion_frames[1].frame_no, 1);
    assert_eq!(vmd.skin_frames.len(), 2);
    assert_eq!(vmd.skin_frames[1].unknown, [2u8; 23]);
    assert_eq!(vmd.camera_frames[0].unknown, [1u8; 61]);
    assert_eq!(vmd.light_frames[0].unknown, [1u8; 28]);
    assert_eq!(vmd.shadow_frames.len(), 3);
    assert_eq!(vmd.shadow_frames[2].unknown, [3u8; 9]);
    assert_eq!(r.offset(), total);
}

#[test]
fn truncated_last_record_is_eof() {
    let mut bytes = empty_file();
    // One self-shadow frame in the last section.
    let n = bytes.len();
    bytes[n - 4..].copy_from_slice(&1u32.to_le_bytes());
    bytes.extend([7u8; 9]);
    assert!(Vmd::read(&mut ByteReader::new(bytes.clone())).is_ok());
    bytes.pop();
    assert_eq!(Vmd::read(&mut ByteReader::new(bytes)).unwrap_err(), Error::UnexpectedEof);
}

#[test]
fn truncated_empty_file_is_eof() {
    let mut bytes = empty_file();
    bytes.pop();
    assert_eq!(Vmd::read(&mut ByteReader::new(bytes)).unwrap_err(), Error::UnexpectedEof);
}

#[test]
fn wrong_magic_is_invalid_header() {
    let mut bytes = empty_file();
    bytes[24] = b'1';
    assert_eq!(Vmd::read(&mut ByteReader::new(bytes.clone())).unwrap_err(), Error::InvalidHeader);
    assert_eq!(VmdHeader::read(&mut ByteReader::new(bytes)).unwrap_err(), Error::InvalidHeader);
}

#[test]
fn short_header_is_eof() {
    let bytes = MAGIC.to_vec();
    assert_eq!(VmdHeader::read(&mut ByteReader::new(bytes)).unwrap_err(), Error::UnexpectedEof);
    let mut bytes = MAGIC.to_vec();
    bytes.resize(40, 0);
    assert_eq!(VmdHeader::read(&mut ByteReader::new(bytes)).unwrap_err(), Error::UnexpectedEof);
}

#[test]
fn header_padding_after_magic_is_ignored() {
    let mut bytes = MAGIC.to_vec();
    bytes.extend([0xAA, 0xBB, 0xCC, 0xDD]);
    bytes.extend(sjis_field("ミク", 20, 0));
    let mut r = ByteReader::new(bytes);
    let h = VmdHeader::read(&mut r).unwrap();
    assert_eq!(h.model_name, "ミク");
    assert_eq!(r.offset(), 50);
}

#[test]
fn raw_frames_consume_their_size() {
    let bytes: Vec<u8> = (0..=120u8).collect();
    let mut r = ByteReader::new(bytes);
    let s = SkinFrame::read(&mut r).unwrap();
    assert_eq!(r.offset(), 23);
    let c = CameraFrame::read(&mut r).unwrap();
    assert_eq!(r.offset(), 84);
    let l = LightFrame::read(&mut r).unwrap();
    assert_eq!(r.offset(), 112);
    let sh = ShadowFrame::read(&mut r).unwrap();
    assert_eq!(r.offset(), 121);
    assert_eq!(s.unknown[0], 0);
    assert_eq!(c.unknown[0], 23);
    assert_eq!(l.unknown[0], 84);
    assert_eq!(sh.unknown[8], 120);
    assert_eq!(ShadowFrame::read(&mut r).unwrap_err(), Error::UnexpectedEof);
}

#[test]
fn read_all_needs_every_declared_record() {
    let mut bytes = 2u32.to_le_bytes().to_vec();
    bytes.extend([5u8; 23]);
    bytes.extend([6u8; 22]);
    assert_eq!(SkinFrame::read_all(&mut ByteReader::new(bytes.clone())).unwrap_err(), Error::UnexpectedEof);
    bytes.push(6);
    let mut r = ByteReader::new(bytes);
    let frames = SkinFrame::read_all(&mut r).unwrap();
    assert_eq!(frames.len(), 2);
    assert_eq!(frames[0].unknown, [5u8; 23]);
    assert_eq!(frames[1].unknown, [6u8; 23]);
    assert_eq!(r.offset(), 50);
}

#[test]
fn read_all_short_count_is_eof() {
    let mut r = ByteReader::new(vec![1, 0, 0]);
    assert_eq!(CameraFrame::read_all(&mut r).unwrap_err(), Error::UnexpectedEof);
    let mut r = ByteReader::new(vec![0, 0, 0, 0]);
    assert!(LightFrame::read_all(&mut r).unwrap().is_empty());
}

#[test]
fn zero_name_field_reads_empty() {
    let mut bytes = MAGIC.to_vec();
    bytes.resize(50, 0);
    let mut r = ByteReader::new(bytes);
    assert_eq!(VmdHeader::read(&mut r).unwrap(), VmdHeader { model_name: String::new() });
    assert_eq!(r.offset(), 50);
}

#[test]
fn wrong_magic_consumes_header_block() {
    let mut bytes = empty_file();
    bytes[0] = b'X';
    let mut r = ByteReader::new(bytes.clone());
    assert_eq!(VmdHeader::read(&mut r).unwrap_err(), Error::InvalidHeader);
    assert_eq!(r.offset(), 30);
    bytes[27] = 0x55;
    let mut r = ByteReader::new(bytes);
    assert_eq!(VmdHeader::read(&mut r).unwrap_err(), Error::InvalidHeader);
    assert_eq!(r.offset(), 30);
}
