use crate::error::Error;
use crate::reader::{u32_le, ByteReader};
use crate::text::{fixed_text, read_fixed_text};
use vstd::prelude::*;

verus! {

/// Bytes in the header block: the magic, padded.
pub const VMD_HEADER_SIZE: usize = 30;

/// Bytes in the magic that opens a motion file.
pub const VMD_MAGIC_SIZE: usize = 26;

/// Bytes in the model-name field that follows the header block.
pub const VMD_MODEL_NAME_SIZE: usize = 20;

/// Bytes in the bone-name field of a motion frame.
pub const VMD_BONE_NAME_SIZE: usize = 15;

/// Bytes in one motion frame.
pub const MOTION_FRAME_SIZE: usize = 111;

/// `"Vocaloid Motion Data 0002\0"`.
pub open spec fn vmd_magic() -> Seq<u8> {
    seq![
        86u8, 111, 99, 97, 108, 111, 105, 100, 32, 77, 111, 116, 105, 111, 110, 32,
        68, 97, 116, 97, 32, 48, 48, 48, 50, 0,
    ]
}

fn magic_bytes() -> (r: Vec<u8>)
    ensures
        r@ == vmd_magic(),
{
    let r = vec![
        86u8, 111, 99, 97, 108, 111, 105, 100, 32, 77, 111, 116, 105, 111, 110, 32,
        68, 97, 116, 97, 32, 48, 48, 48, 50, 0,
    ];
    assert(r@ =~= vmd_magic());
    r
}

/// Copies exactly `N` bytes into an array.
fn to_array<const N: usize>(buf: &Vec<u8>) -> (a: [u8; N])
    requires
        buf@.len() == N,
    ensures
        a@ == buf@,
{
    let mut a: [u8; N] = [0u8; N];
    let mut i: usize = 0;
    while i < N
        invariant
            i <= N,
            buf@.len() == N,
            forall|j: int| 0 <= j < i ==> a@[j] == buf@[j],
        decreases N - i,
    {
        a[i] = buf[i];
        i = i + 1;
    }
    assert(a@ =~= buf@);
    a
}

/// The header of a motion file.
#[derive(Debug, Clone, PartialEq, Eq)]
pub struct VmdHeader {
    pub model_name: String,
}

/// A bone keyframe. Position and rotation are the IEEE-754 bit patterns
/// of their little-endian 32-bit floats.
#[derive(Debug, Clone, PartialEq, Eq)]
pub struct MotionFrame {
    pub name: String,
    pub frame_no: u32,
    pub position: [u32; 3],
    pub rotation: [u32; 4],
    pub interpolation: [u8; 64],
}

/// A morph keyframe, kept as its raw bytes.
#[derive(Debug, Clone, PartialEq, Eq)]
pub struct SkinFrame {
    pub unknown: [u8; 23],
}

/// A camera keyframe, kept as its raw bytes.
#[derive(Debug, Clone, PartialEq, Eq)]
pub struct CameraFrame {
    pub unknown: [u8; 61],
}

/// A light keyframe, kept as its raw bytes.
#[derive(Debug, Clone, PartialEq, Eq)]
pub struct LightFrame {
    pub unknown: [u8; 28],
}

/// A self-shadow keyframe, kept as its raw bytes.
#[derive(Debug, Clone, PartialEq, Eq)]
pub struct ShadowFrame {
    pub unknown: [u8; 9],
}

/// A keyframe kind of fixed byte size, read from a section of records.
pub trait Record: Sized {
    /// The bytes one record takes.
    spec fn size() -> nat;

    /// Whether `self` is what the record bytes `raw` decode to.
    spec fn decodes(&self, raw: Seq<u8>) -> bool;

    /// Reads one record.
    fn read_record(r: &mut ByteReader) -> (res: Result<Self, Error>)
        requires
            old(r).wf(),
        ensures
            old(r).remaining() >= Self::size() ==> final(r).advanced(old(r), Self::size() as int)
                && res is Ok && res->Ok_0.decodes(
                old(r).bytes().subrange(old(r).position(), old(r).position() + Self::size()),
            ),
            old(r).remaining() < Self::size() ==> res == Err::<Self, Error>(Error::UnexpectedEof)
                && final(r).wf() && final(r).bytes() == old(r).bytes(),
    ;
}

/// Whether a section at `p` fits in `b`: a 4-byte count, then that many
/// records of `T`.
pub open spec fn section_fits<T: Record>(b: Seq<u8>, p: int) -> bool {
    &&& 0 <= p
    &&& p + 4 <= b.len()
    &&& section_end::<T>(b, p) <= b.len()
}

/// Where the section at `p` ends.
pub open spec fn section_end<T: Record>(b: Seq<u8>, p: int) -> int {
    p + 4 + u32_le(b, p) * T::size()
}

/// The bytes of the `i`-th record of the section at `p`.
pub open spec fn record_bytes<T: Record>(b: Seq<u8>, p: int, i: int) -> Seq<u8> {
    b.subrange(p + 4 + i * T::size(), p + 4 + (i + 1) * T::size())
}

/// Whether `v` is the section at `p`, record for record, in file order.
pub open spec fn section_decodes<T: Record>(b: Seq<u8>, p: int, v: Seq<T>) -> bool {
    &&& v.len() == u32_le(b, p)
    &&& forall|i: int| 0 <= i < v.len() ==> #[trigger] v[i].decodes(record_bytes::<T>(b, p, i))
}

proof fn lemma_step(i: int, n: int, s: int)
    requires
        0 <= i < n,
        0 <= s,
    ensures
        i * s + s == (i + 1) * s,
        (i + 1) * s <= n * s,
{
    assert(i * s + s == (i + 1) * s) by (nonlinear_arith);
    assert((i + 1) * s <= n * s) by (nonlinear_arith)
        requires
            i + 1 <= n,
            0 <= s,
    ;
}

/// Reads a count, then that many records of `T`.
fn read_records<T: Record>(r: &mut ByteReader) -> (res: Result<Vec<T>, Error>)
    requires
        old(r).wf(),
    ensures
        final(r).wf(),
        final(r).bytes() == old(r).bytes(),
        section_fits::<T>(old(r).bytes(), old(r).position()) ==> {
            let b = old(r).bytes();
            let p = old(r).position();
            &&& final(r).position() == section_end::<T>(b, p)
            &&& res is Ok
            &&& section_decodes(b, p, res->Ok_0@)
        },
        !section_fits::<T>(old(r).bytes(), old(r).position()) ==> res == Err::<Vec<T>, Error>(
            Error::UnexpectedEof,
        ),
{
    let ghost b = r.bytes();
    let ghost p = r.position();
    let n = r.read_u32_le()?;
    let mut frames: Vec<T> = Vec::new();
    let mut i: u32 = 0;
    while i < n
        invariant
            r.wf(),
            r.bytes() == b,
            b == old(r).bytes(),
            p == old(r).position(),
            0 <= p,
            p + 4 <= b.len(),
            n as int == u32_le(b, p),
            i <= n,
            r.position() == p + 4 + i * T::size(),
            frames@.len() == i,
            forall|j: int| 0 <= j < i ==> #[trigger] frames@[j].decodes(record_bytes::<T>(b, p, j)),
        decreases n - i,
    {
        proof {
            lemma_step(i as int, n as int, T::size() as int);
        }
        match T::read_record(r) {
            Ok(f) => {
                frames.push(f);
            },
            Err(e) => {
                return Err(e);
            },
        }
        i = i + 1;
    }
    Ok(frames)
}

impl SkinFrame {
    /// Reads one morph record: 23 raw bytes.
    pub fn read(r: &mut ByteReader) -> (res: Result<SkinFrame, Error>)
        requires
            old(r).wf(),
        ensures
            old(r).remaining() >= 23 ==> final(r).advanced(old(r), 23) && res is Ok
                && res->Ok_0.unknown@ == old(r).bytes().subrange(
                old(r).position(),
                old(r).position() + 23,
            ),
            old(r).remaining() < 23 ==> res == Err::<SkinFrame, Error>(Error::UnexpectedEof)
                && final(r).advanced(old(r), 0),
    {
        let buf = r.read_exact(23)?;
        Ok(SkinFrame { unknown: to_array(&buf) })
    }

    /// Reads a count, then that many morph records, in file order.
    pub fn read_all(r: &mut ByteReader) -> (res: Result<Vec<SkinFrame>, Error>)
        requires
            old(r).wf(),
        ensures
            final(r).wf(),
            final(r).bytes() == old(r).bytes(),
            section_fits::<SkinFrame>(old(r).bytes(), old(r).position()) ==> {
                let b = old(r).bytes();
                let p = old(r).position();
                &&& final(r).position() == section_end::<SkinFrame>(b, p)
                &&& res is Ok
                &&& section_decodes(b, p, res->Ok_0@)
            },
            !section_fits::<SkinFrame>(old(r).bytes(), old(r).position()) ==> res == Err::<
                Vec<SkinFrame>,
                Error,
            >(Error::UnexpectedEof),
    {
        read_records(r)
    }
}

impl Record for SkinFrame {
    open spec fn size() -> nat {
        23
    }

    open spec fn decodes(&self, raw: Seq<u8>) -> bool {
        self.unknown@ == raw
    }

    fn read_record(r: &mut ByteReader) -> (res: Result<SkinFrame, Error>) {
        SkinFrame::read(r)
    }
}

impl CameraFrame {
    /// Reads one camera record: 61 raw bytes.
    pub fn read(r: &mut ByteReader) -> (res: Result<CameraFrame, Error>)
        requires
            old(r).wf(),
        ensures
            old(r).remaining() >= 61 ==> final(r).advanced(old(r), 61) && res is Ok
                && res->Ok_0.unknown@ == old(r).bytes().subrange(
                old(r).position(),
                old(r).position() + 61,
            ),
            old(r).remaining() < 61 ==> res == Err::<CameraFrame, Error>(Error::UnexpectedEof)
                && final(r).advanced(old(r), 0),
    {
        let buf = r.read_exact(61)?;
        Ok(CameraFrame { unknown: to_array(&buf) })
    }

    /// Reads a count, then that many camera records, in file order.
    pub fn read_all(r: &mut ByteReader) -> (res: Result<Vec<CameraFrame>, Error>)
        requires
            old(r).wf(),
        ensures
            final(r).wf(),
            final(r).bytes() == old(r).bytes(),
            section_fits::<CameraFrame>(old(r).bytes(), old(r).position()) ==> {
                let b = old(r).bytes();
                let p = old(r).position();
                &&& final(r).position() == section_end::<CameraFrame>(b, p)
                &&& res is Ok
                &&& section_decodes(b, p, res->Ok_0@)
            },
            !section_fits::<CameraFrame>(old(r).bytes(), old(r).position()) ==> res == Err::<
                Vec<CameraFrame>,
                Error,
            >(Error::UnexpectedEof),
    {
        read_records(r)
    }
}

impl Record for CameraFrame {
    open spec fn size() -> nat {
        61
    }

    open spec fn decodes(&self, raw: Seq<u8>) -> bool {
        self.unknown@ == raw
    }

    fn read_record(r: &mut ByteReader) -> (res: Result<CameraFrame, Error>) {
        CameraFrame::read(r)
    }
}

impl LightFrame {
    /// Reads one light record: 28 raw bytes.
    pub fn read(r: &mut ByteReader) -> (res: Result<LightFrame, Error>)
        requires
            old(r).wf(),
        ensures
            old(r).remaining() >= 28 ==> final(r).advanced(old(r), 28) && res is Ok
                && res->Ok_0.unknown@ == old(r).bytes().subrange(
                old(r).position(),
                old(r).position() + 28,
            ),
            old(r).remaining() < 28 ==> res == Err::<LightFrame, Error>(Error::UnexpectedEof)
                && final(r).advanced(old(r), 0),
    {
        let buf = r.read_exact(28)?;
        Ok(LightFrame { unknown: to_array(&buf) })
    }

    /// Reads a count, then that many light records, in file order.
    pub fn read_all(r: &mut ByteReader) -> (res: Result<Vec<LightFrame>, Error>)
        requires
            old(r).wf(),
        ensures
            final(r).wf(),
            final(r).bytes() == old(r).bytes(),
            section_fits::<LightFrame>(old(r).bytes(), old(r).position()) ==> {
                let b = old(r).bytes();
                let p = old(r).position();
                &&& final(r).position() == section_end::<LightFrame>(b, p)
                &&& res is Ok
                &&& section_decodes(b, p, res->Ok_0@)
            },
            !section_fits::<LightFrame>(old(r).bytes(), old(r).position()) ==> res == Err::<
                Vec<LightFrame>,
                Error,
            >(Error::UnexpectedEof),
    {
        read_records(r)
    }
}

impl Record for LightFrame {
    open spec fn size() -> nat {
        28
    }

    open spec fn decodes(&self, raw: Seq<u8>) -> bool {
        self.unknown@ == raw
    }

    fn read_record(r: &mut ByteReader) -> (res: Result<LightFrame, Error>) {
        LightFrame::read(r)
    }
}

impl ShadowFrame {
    /// Reads one self-shadow record: 9 raw bytes.
    pub fn read(r: &mut ByteReader) -> (res: Result<ShadowFrame, Error>)
        requires
            old(r).wf(),
        ensures
            old(r).remaining() >= 9 ==> final(r).advanced(old(r), 9) && res is Ok
                && res->Ok_0.unknown@ == old(r).bytes().subrange(
                old(r).position(),
                old(r).position() + 9,
            ),
            old(r).remaining() < 9 ==> res == Err::<ShadowFrame, Error>(Error::UnexpectedEof)
                && final(r).advanced(old(r), 0),
    {
        let buf = r.read_exact(9)?;
        Ok(ShadowFrame { unknown: to_array(&buf) })
    }

    /// Reads a count, then that many self-shadow records, in file order.
    pub fn read_all(r: &mut ByteReader) -> (res: Result<Vec<ShadowFrame>, Error>)
        requires
            old(r).wf(),
        ensures
            final(r).wf(),
            final(r).bytes() == old(r).bytes(),
            section_fits::<ShadowFrame>(old(r).bytes(), old(r).position()) ==> {
                let b = old(r).bytes();
                let p = old(r).position();
                &&& final(r).position() == section_end::<ShadowFrame>(b, p)
                &&& res is Ok
                &&& section_decodes(b, p, res->Ok_0@)
            },
            !section_fits::<ShadowFrame>(old(r).bytes(), old(r).position()) ==> res == Err::<
                Vec<ShadowFrame>,
                Error,
            >(Error::UnexpectedEof),
    {
        read_records(r)
    }
}

impl Record for ShadowFrame {
    open spec fn size() -> nat {
        9
    }

    open spec fn decodes(&self, raw: Seq<u8>) -> bool {
        self.unknown@ == raw
    }

    fn read_record(r: &mut ByteReader) -> (res: Result<ShadowFrame, Error>) {
        ShadowFrame::read(r)
    }
}

impl MotionFrame {
    /// Reads one bone keyframe: a 15-byte name field, the frame number, a
    /// position of three floats, a rotation of four, and 64 bytes of
    /// interpolation parameters.
    pub fn read(r: &mut ByteReader) -> (res: Result<MotionFrame, Error>)
        requires
            old(r).wf(),
        ensures
            old(r).remaining() >= 111 ==> final(r).advanced(old(r), 111) && res is Ok
                && res->Ok_0.decodes(
                old(r).bytes().subrange(old(r).position(), old(r).position() + 111),
            ),
            old(r).remaining() < 111 ==> res == Err::<MotionFrame, Error>(Error::UnexpectedEof)
                && final(r).wf() && final(r).bytes() == old(r).bytes(),
    {
        if r.len_remaining() < MOTION_FRAME_SIZE {
            return Err(Error::UnexpectedEof);
        }
        let ghost b = r.bytes();
        let ghost p = r.position();
        let name = read_fixed_text(r, VMD_BONE_NAME_SIZE)?;
        let frame_no = r.read_u32_le()?;
        let ghost at_position = *r;
        let position = r.read_vec3()?;
        let ghost at_rotation = *r;
        let rotation = r.read_vec4()?;
        let buf = r.read_exact(64)?;
        let interpolation: [u8; 64] = to_array(&buf);
        let f = MotionFrame { name, frame_no, position, rotation, interpolation };
        proof {
            let raw = b.subrange(p, p + 111);
            assert(raw.subrange(0, 15) =~= b.subrange(p, p + 15));
            assert(raw.subrange(47, 111) =~= b.subrange(p + 47, p + 111));
            assert forall|k: int| 0 <= k < 3 implies f.position[k] as int == u32_le(raw, 19 + 4 * k) by {
                assert(f.position[k] as int == at_position.float_bits_at(k));
                assert(raw[19 + 4 * k] == b[p + 19 + 4 * k]);
                assert(raw[20 + 4 * k] == b[p + 20 + 4 * k]);
                assert(raw[21 + 4 * k] == b[p + 21 + 4 * k]);
                assert(raw[22 + 4 * k] == b[p + 22 + 4 * k]);
            }
            assert forall|k: int| 0 <= k < 4 implies f.rotation[k] as int == u32_le(raw, 31 + 4 * k) by {
                assert(f.rotation[k] as int == at_rotation.float_bits_at(k));
                assert(raw[31 + 4 * k] == b[p + 31 + 4 * k]);
                assert(raw[32 + 4 * k] == b[p + 32 + 4 * k]);
                assert(raw[33 + 4 * k] == b[p + 33 + 4 * k]);
                assert(raw[34 + 4 * k] == b[p + 34 + 4 * k]);
            }
            assert(raw[15] == b[p + 15]);
            assert(raw[16] == b[p + 16]);
            assert(raw[17] == b[p + 17]);
            assert(raw[18] == b[p + 18]);
        }
        Ok(f)
    }

    /// Reads a count, then that many bone keyframes, in file order.
    pub fn read_all(r: &mut ByteReader) -> (res: Result<Vec<MotionFrame>, Error>)
        requires
            old(r).wf(),
        ensures
            final(r).wf(),
            final(r).bytes() == old(r).bytes(),
            section_fits::<MotionFrame>(old(r).bytes(), old(r).position()) ==> {
                let b = old(r).bytes();
                let p = old(r).position();
                &&& final(r).position() == section_end::<MotionFrame>(b, p)
                &&& res is Ok
                &&& section_decodes(b, p, res->Ok_0@)
            },
            !section_fits::<MotionFrame>(old(r).bytes(), old(r).position()) ==> res == Err::<
                Vec<MotionFrame>,
                Error,
            >(Error::UnexpectedEof),
    {
        read_records(r)
    }
}

impl Record for MotionFrame {
    open spec fn size() -> nat {
        111
    }

    open spec fn decodes(&self, raw: Seq<u8>) -> bool {
        &&& self.name@ == fixed_text(raw.subrange(0, 15))
        &&& self.frame_no as int == u32_le(raw, 15)
        &&& forall|k: int| 0 <= k < 3 ==> self.position[k] as int == u32_le(raw, 19 + 4 * k)
        &&& forall|k: int| 0 <= k < 4 ==> self.rotation[k] as int == u32_le(raw, 31 + 4 * k)
        &&& self.interpolation@ == raw.subrange(47, 111)
    }

    fn read_record(r: &mut ByteReader) -> (res: Result<MotionFrame, Error>) {
        MotionFrame::read(r)
    }
}

/// Whether the 30-byte header block at `p` opens with the magic.
pub open spec fn magic_at(b: Seq<u8>, p: int) -> bool {
    b.subrange(p, p + 26) == vmd_magic()
}

/// Whether a header (header block and model name) fits at `p`.
pub open spec fn header_fits(b: Seq<u8>, p: int) -> bool {
    0 <= p && p + 50 <= b.len() && magic_at(b, p)
}

impl VmdHeader {
    /// Whether `self` is the header at `p`.
    pub open spec fn decodes(&self, b: Seq<u8>, p: int) -> bool {
        self.model_name@ == fixed_text(b.subrange(p + 30, p + 50))
    }

    /// Reads the 30-byte header block, checks its magic, then reads the
    /// 20-byte model name.
    pub fn read(r: &mut ByteReader) -> (res: Result<VmdHeader, Error>)
        requires
            old(r).wf(),
        ensures
            final(r).wf(),
            final(r).bytes() == old(r).bytes(),
            header_fits(old(r).bytes(), old(r).position()) ==> final(r).advanced(old(r), 50)
                && res is Ok && res->Ok_0.decodes(old(r).bytes(), old(r).position()),
            old(r).remaining() >= 30 && !magic_at(old(r).bytes(), old(r).position()) ==> res
                == Err::<VmdHeader, Error>(Error::InvalidHeader) && final(r).advanced(old(r), 30),
            (old(r).remaining() < 30 || magic_at(old(r).bytes(), old(r).position()))
                && !header_fits(old(r).bytes(), old(r).position()) ==> res == Err::<
                VmdHeader,
                Error,
            >(Error::UnexpectedEof),
    {
        let ghost b = r.bytes();
        let ghost p = r.position();
        let buf = r.read_exact(VMD_HEADER_SIZE)?;
        let magic = magic_bytes();
        let mut i: usize = 0;
        while i < VMD_MAGIC_SIZE
            invariant
                i <= VMD_MAGIC_SIZE,
                b == old(r).bytes(),
                p == old(r).position(),
                0 <= p,
                p + 30 <= b.len(),
                r.advanced(old(r), 30),
                buf@ == b.subrange(p, p + 30),
                magic@ == vmd_magic(),
                forall|j: int| 0 <= j < i ==> buf@[j] == vmd_magic()[j],
            decreases VMD_MAGIC_SIZE - i,
        {
            if buf[i] != magic[i] {
                assert(b.subrange(p, p + 26)[i as int] != vmd_magic()[i as int]);
                return Err(Error::InvalidHeader);
            }
            i = i + 1;
        }
        assert(b.subrange(p, p + 26) =~= vmd_magic());
        let model_name = read_fixed_text(r, VMD_MODEL_NAME_SIZE)?;
        Ok(VmdHeader { model_name })
    }
}

/// A whole motion file: the header, then the five keyframe sections.
#[derive(Debug, Clone, PartialEq, Eq)]
pub struct Vmd {
    pub header: VmdHeader,
    pub motion_frames: Vec<MotionFrame>,
    pub skin_frames: Vec<SkinFrame>,
    pub camera_frames: Vec<CameraFrame>,
    pub light_frames: Vec<LightFrame>,
    pub shadow_frames: Vec<ShadowFrame>,
}

/// Where the motion section of a file at `p` starts.
pub open spec fn motion_start(p: int) -> int {
    p + 50
}

pub open spec fn skin_start(b: Seq<u8>, p: int) -> int {
    section_end::<MotionFrame>(b, motion_start(p))
}

pub open spec fn camera_start(b: Seq<u8>, p: int) -> int {
    section_end::<SkinFrame>(b, skin_start(b, p))
}

pub open spec fn light_start(b: Seq<u8>, p: int) -> int {
    section_end::<CameraFrame>(b, camera_start(b, p))
}

pub open spec fn shadow_start(b: Seq<u8>, p: int) -> int {
    section_end::<LightFrame>(b, light_start(b, p))
}

/// Where a motion file at `p` ends.
pub open spec fn vmd_end(b: Seq<u8>, p: int) -> int {
    section_end::<ShadowFrame>(b, shadow_start(b, p))
}

/// Whether a whole motion file fits at `p`: a header, then each section in
/// turn, every declared record present.
pub open spec fn vmd_fits(b: Seq<u8>, p: int) -> bool {
    &&& header_fits(b, p)
    &&& section_fits::<MotionFrame>(b, motion_start(p))
    &&& section_fits::<SkinFrame>(b, skin_start(b, p))
    &&& section_fits::<CameraFrame>(b, camera_start(b, p))
    &&& section_fits::<LightFrame>(b, light_start(b, p))
    &&& section_fits::<ShadowFrame>(b, shadow_start(b, p))
}

impl Vmd {
    /// Whether `self` is the motion file at `p`.
    pub open spec fn decodes(&self, b: Seq<u8>, p: int) -> bool {
        &&& self.header.decodes(b, p)
        &&& section_decodes(b, motion_start(p), self.motion_frames@)
        &&& section_decodes(b, skin_start(b, p), self.skin_frames@)
        &&& section_decodes(b, camera_start(b, p), self.camera_frames@)
        &&& section_decodes(b, light_start(b, p), self.light_frames@)
        &&& section_decodes(b, shadow_start(b, p), self.shadow_frames@)
    }

    /// Reads a whole motion file: the header, then the motion, morph,
    /// camera, light and self-shadow sections, in that order.
    pub fn read(r: &mut ByteReader) -> (res: Result<Vmd, Error>)
        requires
            old(r).wf(),
        ensures
            final(r).wf(),
            final(r).bytes() == old(r).bytes(),
            vmd_fits(old(r).bytes(), old(r).position()) ==> {
                let b = old(r).bytes();
                let p = old(r).position();
                &&& final(r).position() == vmd_end(b, p)
                &&& res is Ok
                &&& res->Ok_0.decodes(b, p)
            },
            old(r).remaining() >= 30 && !magic_at(old(r).bytes(), old(r).position()) ==> res
                == Err::<Vmd, Error>(Error::InvalidHeader) && final(r).advanced(old(r), 30),
            (old(r).remaining() < 30 || magic_at(old(r).bytes(), old(r).position())) && !vmd_fits(
                old(r).bytes(),
                old(r).position(),
            ) ==> res == Err::<Vmd, Error>(Error::UnexpectedEof),
    {
        let header = VmdHeader::read(r)?;
        let motion_frames = MotionFrame::read_all(r)?;
        let skin_frames = SkinFrame::read_all(r)?;
        let camera_frames = CameraFrame::read_all(r)?;
        let light_frames = LightFrame::read_all(r)?;
        let shadow_frames = ShadowFrame::read_all(r)?;
        Ok(Vmd { header, motion_frames, skin_frames, camera_frames, light_frames, shadow_frames })
    }
}

proof fn lemma_count_in_prefix(b: Seq<u8>, c: Seq<u8>, q: int)
    requires
        c.len() <= b.len(),
        c =~= b.subrange(0, c.len() as int),
        0 <= q,
        q + 4 <= c.len(),
    ensures
        u32_le(c, q) == u32_le(b, q),
{
    assert(c[q] == b[q]);
    assert(c[q + 1] == b[q + 1]);
    assert(c[q + 2] == b[q + 2]);
    assert(c[q + 3] == b[q + 3]);
}

/// A motion file cut one byte before the end of its last declared record
/// keeps its magic but no longer fits, so reading it fails with
/// `UnexpectedEof` rather than yielding a short record.
pub proof fn lemma_truncated_file_fails(b: Seq<u8>, p: int)
    requires
        vmd_fits(b, p),
    ensures
        ({
            let c = b.subrange(0, vmd_end(b, p) - 1);
            &&& c.len() - p >= 30
            &&& magic_at(c, p)
            &&& !vmd_fits(c, p)
        }),
{
    let c = b.subrange(0, vmd_end(b, p) - 1);
    assert(c.subrange(p, p + 26) =~= b.subrange(p, p + 26));
    if vmd_fits(c, p) {
        lemma_count_in_prefix(b, c, motion_start(p));
        lemma_count_in_prefix(b, c, skin_start(b, p));
        lemma_count_in_prefix(b, c, camera_start(b, p));
        lemma_count_in_prefix(b, c, light_start(b, p));
        lemma_count_in_prefix(b, c, shadow_start(b, p));
        assert(vmd_end(c, p) == vmd_end(b, p));
    }
}

} // verus!
