use vstd::prelude::*;

verus! {

/// The pose of one bone. Position and rotation are the IEEE-754 bit
/// patterns of their 32-bit floats.
#[derive(Debug, Clone, PartialEq, Eq)]
pub struct BoneTransform {
    pub id: u32,
    pub name: String,
    pub position: [u32; 3],
    pub rotation: [u32; 4],
}

/// The weight of one morph, with its offset. Floats are carried as their
/// IEEE-754 bit patterns.
#[derive(Debug, Clone, PartialEq, Eq)]
pub struct MorphValue {
    pub id: u32,
    pub name: String,
    pub weight: u32,
    pub offset: [u32; 3],
}

/// A pose: named bone transforms and morph values.
#[derive(Debug, Clone, PartialEq, Eq)]
pub struct Vpd {
    pub name: String,
    pub bone_transforms: Vec<BoneTransform>,
    pub morph_values: Vec<MorphValue>,
}

impl Vpd {
    /// An empty pose of the given name.
    pub fn new(name: String) -> (r: Vpd)
        ensures
            r.name == name,
            r.bone_transforms@.len() == 0,
            r.morph_values@.len() == 0,
    {
        Vpd { name, bone_transforms: Vec::new(), morph_values: Vec::new() }
    }
}

} // verus!
