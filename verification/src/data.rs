//! Plain data carried through the layouts without interpretation.
//!
//! Numeric fields that the GPU consumer reads as 32-bit IEEE-754 values are
//! held host-side as their raw bit patterns (`u32`): the host never does
//! arithmetic on them, it only stores, copies and compares them, so the bit
//! pattern is the faithful model and copying is exact by construction.

use vstd::prelude::*;

verus! {

/// Maximum number of point sources in the force field: the GPU buffer that
/// receives the slots has this fixed length.
pub const FFNUM: usize = 16;

/// Raw bit pattern of the 32-bit value one tenth, the default minimum
/// influence radius of a force-field source.
pub const DEFAULT_MIN_RADIUS_BITS: u32 = 0x3DCC_CCCD;

/// A 2-component vector of raw 32-bit value bit patterns.
#[derive(Clone, Copy, PartialEq, Eq, Structural, Debug)]
pub struct Vec2Data {
    /// Bit pattern of the first component.
    pub x: u32,
    /// Bit pattern of the second component.
    pub y: u32,
}

/// A 3-component vector of raw 32-bit value bit patterns.
#[derive(Clone, Copy, PartialEq, Eq, Structural, Debug)]
pub struct Vec3Data {
    /// Bit pattern of the first component.
    pub x: u32,
    /// Bit pattern of the second component.
    pub y: u32,
    /// Bit pattern of the third component.
    pub z: u32,
}

/// A 4-component vector of raw 32-bit value bit patterns.
#[derive(Clone, Copy, PartialEq, Eq, Structural, Debug)]
pub struct Vec4Data {
    /// Bit pattern of the first component.
    pub x: u32,
    /// Bit pattern of the second component.
    pub y: u32,
    /// Bit pattern of the third component.
    pub z: u32,
    /// Bit pattern of the fourth component.
    pub w: u32,
}

impl Vec3Data {
    /// The all-zero vector.
    pub fn zero() -> (r: Vec3Data)
        ensures
            r == (Vec3Data { x: 0u32, y: 0u32, z: 0u32 }),
    {
        Vec3Data { x: 0, y: 0, z: 0 }
    }
}

impl Default for Vec3Data {
    /// The all-zero vector.
    fn default() -> (r: Vec3Data)
        ensures
            r == (Vec3Data { x: 0u32, y: 0u32, z: 0u32 }),
    {
        Vec3Data { x: 0, y: 0, z: 0 }
    }
}

/// A non-owning, clonable reference to a texture asset: a lookup key into the
/// asset table owned by an external collaborator.  The key is never
/// interpreted here, only stored and copied.
#[derive(Clone, Copy, PartialEq, Eq, Structural, Debug)]
pub struct TextureHandle {
    /// The asset-table key.
    pub id: u64,
}

/// One keyframe of a gradient: a value reached at a point of the particle's
/// normalized lifetime.
#[derive(Clone, Copy, PartialEq, Eq, Structural, Debug)]
pub struct GradientKey<T> {
    /// Bit pattern of the lifetime ratio at which `value` is reached.
    pub time: u32,
    /// The keyframe value.
    pub value: T,
}

/// An ordered sequence of keyframes, consumed verbatim by the render stage.
/// This core never builds or samples gradients; it only copies them into the
/// render layout.
#[derive(Clone, PartialEq, Eq, Debug)]
pub struct Gradient<T> {
    /// The keyframes, in application order.
    pub keys: Vec<GradientKey<T>>,
}

impl<T: Copy> Gradient<T> {
    /// An empty gradient.
    pub fn new() -> (r: Gradient<T>)
        ensures
            r.keys@.len() == 0,
    {
        Gradient { keys: Vec::new() }
    }

    /// An element-for-element copy, so a modifier can hand its gradient to a
    /// layout without giving up its own.
    pub fn duplicate(&self) -> (r: Gradient<T>)
        ensures
            r.keys@ == self.keys@,
    {
        let mut keys: Vec<GradientKey<T>> = Vec::new();
        let n = self.keys.len();
        let mut i: usize = 0;
        while i < n
            invariant
                n == self.keys@.len(),
                0 <= i <= n,
                keys@ == self.keys@.subrange(0, i as int),
            decreases n - i,
        {
            keys.push(self.keys[i]);
            proof {
                assert(keys@ =~= self.keys@.subrange(0, i + 1 as int));
            }
            i = i + 1;
        }
        proof {
            assert(keys@ =~= self.keys@);
        }
        Gradient { keys }
    }
}

/// Parameters of one point source of the force field.
///
/// A source with a mass of zero is the sentinel that stops the GPU consumer:
/// it reads the slots in order and ignores every slot from the first zero-mass
/// one on.  A positive mass attracts, a negative mass repels.
#[derive(Clone, Copy, PartialEq, Eq, Structural, Debug)]
pub struct ForceFieldParam {
    /// Bit patterns of the source position.
    pub position: Vec3Data,
    /// Bit pattern of the maximum influence radius, outside of which the
    /// force is null.
    pub max_radius: u32,
    /// Bit pattern of the minimum influence radius, inside of which the force
    /// is null, avoiding the singularity at the source position.
    pub min_radius: u32,
    /// Bit pattern of the signed mass.  Zero is the evaluation-stop sentinel.
    pub mass: u32,
    /// Bit pattern of the exponent in the force law
    /// `1 / distance^force_exponent`.
    pub force_exponent: u32,
    /// When set, particles inside `min_radius` conform to the sphere of that
    /// radius around the source instead of passing through the singularity.
    pub conform_to_sphere: bool,
}

impl ForceFieldParam {
    /// The inert all-defaults source, as [`Default::default`] returns it.
    pub open spec fn default_param() -> ForceFieldParam {
        ForceFieldParam {
            position: Vec3Data { x: 0u32, y: 0u32, z: 0u32 },
            max_radius: 0u32,
            min_radius: DEFAULT_MIN_RADIUS_BITS,
            mass: 0u32,
            force_exponent: 0u32,
            conform_to_sphere: false,
        }
    }

    /// The slot's mass encodes zero, so consumers stop evaluating here.  Both
    /// 32-bit encodings of zero (positive and negative) count.
    pub open spec fn spec_is_sentinel(self) -> bool {
        self.mass == 0u32 || self.mass == 0x8000_0000u32
    }

    /// Whether this slot stops the GPU consumer's evaluation pass.
    pub fn is_sentinel(&self) -> (r: bool)
        ensures
            r == self.spec_is_sentinel(),
    {
        self.mass == 0 || self.mass == 0x8000_0000
    }
}

impl Default for ForceFieldParam {
    /// The inert all-defaults source: mass zero, so it doubles as the
    /// evaluation-stop sentinel.
    fn default() -> (r: ForceFieldParam)
        ensures
            r == ForceFieldParam::default_param(),
            r.spec_is_sentinel(),
    {
        ForceFieldParam {
            position: Vec3Data { x: 0, y: 0, z: 0 },
            max_radius: 0,
            min_radius: DEFAULT_MIN_RADIUS_BITS,
            mass: 0,
            force_exponent: 0,
            conform_to_sphere: false,
        }
    }
}

} // verus!
