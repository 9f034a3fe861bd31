use crate::error::Error;
use crate::reader::{i16_le, i32_le, i8_of, u16_le, ByteReader};
use vstd::prelude::*;

verus! {

/// The on-wire width of an index field, declared by a file's header.
#[derive(Debug, Clone, Copy, PartialEq, Eq)]
pub enum IndexSize {
    I8,
    I16,
    I32,
}

/// The number of bytes an index of `size` takes.
pub open spec fn width(size: IndexSize) -> int {
    match size {
        IndexSize::I8 => 1,
        IndexSize::I16 => 2,
        IndexSize::I32 => 4,
    }
}

/// A generic index at `p`: signed at every width.
pub open spec fn index_raw(b: Seq<u8>, p: int, size: IndexSize) -> int {
    match size {
        IndexSize::I8 => i8_of(b[p]),
        IndexSize::I16 => i16_le(b, p),
        IndexSize::I32 => i32_le(b, p),
    }
}

/// A vertex index at `p`: unsigned at 8 and 16 bits, signed at 32 bits.
pub open spec fn vertex_index_raw(b: Seq<u8>, p: int, size: IndexSize) -> int {
    match size {
        IndexSize::I8 => b[p] as int,
        IndexSize::I16 => u16_le(b, p),
        IndexSize::I32 => i32_le(b, p),
    }
}

/// An integer type that indices can be read into.
pub trait Index: Sized {
    /// Whether the type can represent `v`.
    spec fn fits(v: int) -> bool;

    /// The integer that a value stands for.
    spec fn value(&self) -> int;

    /// Converts `v`, or returns `None` where the type cannot represent it.
    fn from_raw(v: i64) -> (r: Option<Self>)
        ensures
            r is Some <==> Self::fits(v as int),
            r is Some ==> r->0.value() == v as int,
    ;
}

impl Index for i8 {
    open spec fn fits(v: int) -> bool {
        i8::MIN <= v <= i8::MAX
    }

    open spec fn value(&self) -> int {
        *self as int
    }

    fn from_raw(v: i64) -> (r: Option<i8>) {
        if i8::MIN as i64 <= v && v <= i8::MAX as i64 {
            Some(v as i8)
        } else {
            None
        }
    }
}

impl Index for i16 {
    open spec fn fits(v: int) -> bool {
        i16::MIN <= v <= i16::MAX
    }

    open spec fn value(&self) -> int {
        *self as int
    }

    fn from_raw(v: i64) -> (r: Option<i16>) {
        if i16::MIN as i64 <= v && v <= i16::MAX as i64 {
            Some(v as i16)
        } else {
            None
        }
    }
}

impl Index for i32 {
    open spec fn fits(v: int) -> bool {
        i32::MIN <= v <= i32::MAX
    }

    open spec fn value(&self) -> int {
        *self as int
    }

    fn from_raw(v: i64) -> (r: Option<i32>) {
        if i32::MIN as i64 <= v && v <= i32::MAX as i64 {
            Some(v as i32)
        } else {
            None
        }
    }
}

impl Index for i64 {
    open spec fn fits(v: int) -> bool {
        i64::MIN <= v <= i64::MAX
    }

    open spec fn value(&self) -> int {
        *self as int
    }

    fn from_raw(v: i64) -> (r: Option<i64>) {
        Some(v)
    }
}

impl Index for u8 {
    open spec fn fits(v: int) -> bool {
        0 <= v <= u8::MAX
    }

    open spec fn value(&self) -> int {
        *self as int
    }

    fn from_raw(v: i64) -> (r: Option<u8>) {
        if 0 <= v && v <= u8::MAX as i64 {
            Some(v as u8)
        } else {
            None
        }
    }
}

impl Index for u16 {
    open spec fn fits(v: int) -> bool {
        0 <= v <= u16::MAX
    }

    open spec fn value(&self) -> int {
        *self as int
    }

    fn from_raw(v: i64) -> (r: Option<u16>) {
        if 0 <= v && v <= u16::MAX as i64 {
            Some(v as u16)
        } else {
            None
        }
    }
}

impl Index for u32 {
    open spec fn fits(v: int) -> bool {
        0 <= v <= u32::MAX
    }

    open spec fn value(&self) -> int {
        *self as int
    }

    fn from_raw(v: i64) -> (r: Option<u32>) {
        if 0 <= v && v <= u32::MAX as i64 {
            Some(v as u32)
        } else {
            None
        }
    }
}

impl Index for u64 {
    open spec fn fits(v: int) -> bool {
        0 <= v <= u64::MAX
    }

    open spec fn value(&self) -> int {
        *self as int
    }

    fn from_raw(v: i64) -> (r: Option<u64>) {
        if 0 <= v {
            Some(v as u64)
        } else {
            None
        }
    }
}

impl Index for usize {
    open spec fn fits(v: int) -> bool {
        0 <= v <= usize::MAX
    }

    open spec fn value(&self) -> int {
        *self as int
    }

    fn from_raw(v: i64) -> (r: Option<usize>) {
        if 0 <= v && v as u64 <= usize::MAX as u64 {
            Some(v as usize)
        } else {
            None
        }
    }
}

/// Whether `res` is the outcome of converting `raw` into `I`: the value
/// itself where `I` can represent it, else `IndexOverflow` carrying it.
pub open spec fn converted<I: Index>(res: Result<I, Error>, raw: int) -> bool {
    if I::fits(raw) {
        res is Ok && res->Ok_0.value() == raw
    } else {
        res == Err::<I, Error>(Error::IndexOverflow(raw as i64))
    }
}

/// At every width and for both index kinds, a raw index converts into `I`
/// as itself where `I` can represent it, and otherwise fails with
/// `IndexOverflow` carrying exactly the raw value.
pub proof fn lemma_index_conversion<I: Index>(
    b: Seq<u8>,
    p: int,
    size: IndexSize,
    vertex: bool,
    res: Result<I, Error>,
)
    requires
        0 <= p,
        p + width(size) <= b.len(),
        converted(
            res,
            if vertex {
                vertex_index_raw(b, p, size)
            } else {
                index_raw(b, p, size)
            },
        ),
    ensures
        ({
            let raw = if vertex {
                vertex_index_raw(b, p, size)
            } else {
                index_raw(b, p, size)
            };
            &&& I::fits(raw) ==> res is Ok && res->Ok_0.value() == raw
            &&& !I::fits(raw) ==> res is Err && res->Err_0 is IndexOverflow
                && res->Err_0->IndexOverflow_0 as int == raw
        }),
{
}

fn convert<I: Index>(raw: i64) -> (res: Result<I, Error>)
    ensures
        converted(res, raw as int),
{
    match I::from_raw(raw) {
        Some(i) => Ok(i),
        None => Err(Error::IndexOverflow(raw)),
    }
}

/// Reads a generic index of the declared width, always signed on the wire,
/// and converts it into `I`.
pub fn read_index<I: Index>(r: &mut ByteReader, size: IndexSize) -> (res: Result<I, Error>)
    requires
        old(r).wf(),
    ensures
        old(r).remaining() < width(size) ==> res == Err::<I, Error>(Error::UnexpectedEof)
            && final(r).advanced(old(r), 0),
        old(r).remaining() >= width(size) ==> final(r).advanced(old(r), width(size))
            && converted(res, index_raw(old(r).bytes(), old(r).position(), size)),
{
    match size {
        IndexSize::I8 => {
            let v = r.read_i8()?;
            convert(v as i64)
        },
        IndexSize::I16 => {
            let v = r.read_i16_le()?;
            convert(v as i64)
        },
        IndexSize::I32 => {
            let v = r.read_i32_le()?;
            convert(v as i64)
        },
    }
}

/// Reads a vertex index of the declared width, unsigned on the wire at 8
/// and 16 bits and signed at 32 bits, and converts it into `I`.
pub fn read_vertex_index<I: Index>(r: &mut ByteReader, size: IndexSize) -> (res: Result<
    I,
    Error,
>)
    requires
        old(r).wf(),
    ensures
        old(r).remaining() < width(size) ==> res == Err::<I, Error>(Error::UnexpectedEof)
            && final(r).advanced(old(r), 0),
        old(r).remaining() >= width(size) ==> final(r).advanced(old(r), width(size))
            && converted(res, vertex_index_raw(old(r).bytes(), old(r).position(), size)),
{
    match size {
        IndexSize::I8 => {
            let v = r.read_u8()?;
            convert(v as i64)
        },
        IndexSize::I16 => {
            let v = r.read_u16_le()?;
            convert(v as i64)
        },
        IndexSize::I32 => {
            let v = r.read_i32_le()?;
            convert(v as i64)
        },
    }
}

} // verus!
