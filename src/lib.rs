//! Decoding of the binary model and motion formats of a 3D character
//! animation toolchain: a byte cursor with checked little-endian reads,
//! text and index decoders, and the motion-format reader built on them.

pub mod error;
pub mod index;
pub mod reader;
pub mod text;
pub mod vmd;
pub mod vpd;

pub use error::Error;
pub use index::{read_index, read_vertex_index, Index, IndexSize};
pub use reader::ByteReader;
pub use text::{read_fixed_text, read_text, TextEncoding};
pub use vmd::{
    CameraFrame, LightFrame, MotionFrame, Record, ShadowFrame, SkinFrame, Vmd, VmdHeader,
    VMD_MODEL_NAME_SIZE,
};
pub use vpd::{BoneTransform, MorphValue, Vpd};
