//! Shape-sampling position modifiers: circle, sphere and cube.
//!
//! Each `apply` emits one self-contained shader statement block that samples
//! a spawn position on or in the shape and an initial velocity, using the
//! shader-side intrinsics `rand()`, `rand3()`, `rand_positive_int(n)`,
//! `rotate_point(v, quat)` and the ambient variable `tau`.  The emitted text
//! is pinned down character for character by the spec functions below.

use vstd::prelude::*;

use crate::layout::InitLayout;
use crate::modifier::InitModifier;
use crate::wgsl::{QuatExpr, Scalar, Value, Vec3Expr, value_wgsl, vec3_wgsl, vec4_wgsl};

verus! {

/// The dimension of a shape to consider: its boundary alone, or its whole
/// interior.
#[derive(Clone, Copy, PartialEq, Eq, Structural, Debug)]
pub enum ShapeDimension {
    /// Consider the surface of the shape only.
    Surface,
    /// Consider the entire shape volume.
    Volume,
}

impl Default for ShapeDimension {
    /// Surface sampling.
    fn default() -> (r: ShapeDimension)
        ensures
            r == ShapeDimension::Surface,
    {
        ShapeDimension::Surface
    }
}

/// The direction and intensity of the speed vector given to spawned
/// particles.
#[derive(Clone, PartialEq, Eq, Debug)]
pub enum SpeedVector {
    /// Eject along the outward surface normal of the shape.
    Normal(Value),
    /// Eject away from the shape's center.
    Radial(Value),
    /// Eject in the given (x, y, z) direction in the shape's local, rotated
    /// frame.
    Local(Value, Value, Value),
    /// Eject in the given (x, y, z) direction in world space, independent of
    /// the shape's rotation.
    World(Value, Value, Value),
}

impl SpeedVector {
    /// Every carried value holds well-formed tokens.
    pub open spec fn wf(&self) -> bool {
        match *self {
            SpeedVector::Normal(s) => s.wf(),
            SpeedVector::Radial(s) => s.wf(),
            SpeedVector::Local(x, y, z) => x.wf() && y.wf() && z.wf(),
            SpeedVector::World(x, y, z) => x.wf() && y.wf() && z.wf(),
        }
    }
}

impl Default for SpeedVector {
    /// Radial ejection at unit speed.
    fn default() -> (r: SpeedVector)
        ensures
            r matches SpeedVector::Radial(Value::Single(s)) && s@ == "1"@,
    {
        SpeedVector::Radial(Value::Single(Scalar::one()))
    }
}

/// The comma-separated splice of three value expressions, as they appear
/// inside a `vec3<f32>(...)` constructor.
pub open spec fn value_triple(x: Value, y: Value, z: Value) -> Seq<char> {
    value_wgsl(x) + ", "@ + value_wgsl(y) + ", "@ + value_wgsl(z)
}

/// The velocity statement for shapes whose outward surface normal is the
/// radial direction from the center (circle and sphere), so `Normal` and
/// `Radial` render to the same text.  `rotation` is spliced only by the
/// `Local` variant.
pub open spec fn radial_speed_code(speed: SpeedVector, rotation: QuatExpr) -> Seq<char> {
    match speed {
        SpeedVector::Normal(s) => "ret.vel = dir * ("@ + value_wgsl(s) + ");"@,
        SpeedVector::Radial(s) => "ret.vel = dir * ("@ + value_wgsl(s) + ");"@,
        SpeedVector::Local(x, y, z) => "\n    let rot = "@
            + vec4_wgsl(rotation.x@, rotation.y@, rotation.z@, rotation.w@)
            + ";\n    ret.vel = rotate_point(vec3<f32>("@ + value_triple(x, y, z)
            + "), rot);\n                        "@,
        SpeedVector::World(x, y, z) => "ret.vel = vec3<f32>("@ + value_triple(x, y, z)
            + ");"@,
    }
}

/// The radius statement of the circle: the configured radius held at the
/// boundary (surface), or scaled by `sqrt(rand())` for an unbiased sample of
/// the disc area (volume).
pub open spec fn circle_radius_code(dimension: ShapeDimension, radius: Seq<char>) -> Seq<
    char,
> {
    match dimension {
        ShapeDimension::Surface => "let r = "@ + radius + ";"@,
        ShapeDimension::Volume => "let r = sqrt(rand()) * "@ + radius + ";"@,
    }
}

/// The radius statement of the sphere: the configured radius held at the
/// boundary (surface), or scaled by `rand()` to the power one third for an
/// unbiased sample of the ball volume.
pub open spec fn sphere_radius_code(dimension: ShapeDimension, radius: Seq<char>) -> Seq<
    char,
> {
    match dimension {
        ShapeDimension::Surface => "let r = "@ + radius + ";"@,
        ShapeDimension::Volume => "var r = pow(rand(), 1./3.) * "@ + radius + ";"@,
    }
}

/// An initialization modifier spawning particles on a circle (or disc).
#[derive(Clone, PartialEq, Eq, Debug)]
pub struct PositionCircleModifier {
    /// The circle center, relative to the emitter position.
    pub center: Vec3Expr,
    /// The circle rotation; kept for rendering the `Local` speed variant.
    pub rotation: QuatExpr,
    /// The first basis direction of the circle plane: the X axis taken
    /// through `rotation`, supplied by the caller alongside it.
    pub tangent: Vec3Expr,
    /// The second basis direction of the circle plane: the Z axis taken
    /// through `rotation`, supplied by the caller alongside it.
    pub bitangent: Vec3Expr,
    /// The circle radius.
    pub radius: Scalar,
    /// The speed of the particles on spawn.  `Radial` has the same effect as
    /// `Normal` here.
    pub speed: SpeedVector,
    /// The shape dimension to spawn from.
    pub dimension: ShapeDimension,
}

/// The full statement block the circle modifier writes into the init layout.
pub open spec fn circle_position_code(m: PositionCircleModifier) -> Seq<char> {
    "\n    // >>> [PositionCircleModifier]\n    // Circle center\n    let c = "@
        + vec3_wgsl(m.center.x@, m.center.y@, m.center.z@)
        + ";\n    // Circle basis\n    let tangent = "@
        + vec3_wgsl(m.tangent.x@, m.tangent.y@, m.tangent.z@) + ";\n    let bitangent = "@
        + vec3_wgsl(m.bitangent.x@, m.bitangent.y@, m.bitangent.z@)
        + ";\n    // Circle radius\n    "@ + circle_radius_code(m.dimension, m.radius@)
        + "\n    // Spawn random point on/in circle\n    let theta = rand() * tau;\n    let dir = tangent * cos(theta) + bitangent * sin(theta);\n    ret.pos = c + r * dir;\n    // Speed code\n    "@
        + radial_speed_code(m.speed, m.rotation)
        + "\n    // <<< [PositionCircleModifier]\n            "@
}

impl Default for PositionCircleModifier {
    /// A unit-frame circle: center at the origin, identity rotation (so the
    /// basis is the plain X and Z axes), zero radius, default speed and
    /// dimension.
    fn default() -> (r: PositionCircleModifier)
        ensures
            r.center.x@ == "0"@ && r.center.y@ == "0"@ && r.center.z@ == "0"@,
            r.rotation.x@ == "0"@ && r.rotation.y@ == "0"@ && r.rotation.z@ == "0"@
                && r.rotation.w@ == "1"@,
            r.tangent.x@ == "1"@ && r.tangent.y@ == "0"@ && r.tangent.z@ == "0"@,
            r.bitangent.x@ == "0"@ && r.bitangent.y@ == "0"@ && r.bitangent.z@ == "1"@,
            r.radius@ == "0"@,
            r.speed matches SpeedVector::Radial(Value::Single(s)) && s@ == "1"@,
            r.dimension == ShapeDimension::Surface,
    {
        PositionCircleModifier {
            center: Vec3Expr::zero(),
            rotation: QuatExpr::identity(),
            tangent: Vec3Expr { x: Scalar::one(), y: Scalar::zero(), z: Scalar::zero() },
            bitangent: Vec3Expr { x: Scalar::zero(), y: Scalar::zero(), z: Scalar::one() },
            radius: Scalar::zero(),
            speed: SpeedVector::default(),
            dimension: ShapeDimension::default(),
        }
    }
}

impl InitModifier for PositionCircleModifier {
    /// Overwrites the init layout's position code with the circle's
    /// statement block.
    fn apply(&self, init_layout: &mut InitLayout)
        ensures
            final(init_layout).position_code@ == circle_position_code(*self),
    {
        let mut code = String::from_str(
            "\n    // >>> [PositionCircleModifier]\n    // Circle center\n    let c = ",
        );
        append_vec3(&mut code, &self.center);
        code.append(";\n    // Circle basis\n    let tangent = ");
        append_vec3(&mut code, &self.tangent);
        code.append(";\n    let bitangent = ");
        append_vec3(&mut code, &self.bitangent);
        code.append(";\n    // Circle radius\n    ");
        match self.dimension {
            ShapeDimension::Surface => {
                code.append("let r = ");
                code.append(self.radius.as_str());
                code.append(";");
            },
            ShapeDimension::Volume => {
                code.append("let r = sqrt(rand()) * ");
                code.append(self.radius.as_str());
                code.append(";");
            },
        }
        code.append(
            "\n    // Spawn random point on/in circle\n    let theta = rand() * tau;\n    let dir = tangent * cos(theta) + bitangent * sin(theta);\n    ret.pos = c + r * dir;\n    // Speed code\n    ",
        );
        append_radial_speed(&mut code, &self.speed, &self.rotation);
        code.append("\n    // <<< [PositionCircleModifier]\n            ");
        proof {
            assert(code@ =~= circle_position_code(*self));
        }
        init_layout.position_code = code;
    }
}

/// An initialization modifier spawning particles on a sphere.
#[derive(Clone, PartialEq, Eq, Debug)]
pub struct PositionSphereModifier {
    /// The sphere center, relative to the emitter position.
    pub center: Vec3Expr,
    /// The sphere radius.
    pub radius: Scalar,
    /// The sphere alignment relative to the world; rendered only by the
    /// `Local` speed variant.
    pub rotation: QuatExpr,
    /// The speed of the particles on spawn.  `Radial` has the same effect as
    /// `Normal` here.
    pub speed: SpeedVector,
    /// The shape dimension to spawn from.
    pub dimension: ShapeDimension,
}

/// The full statement block the sphere modifier writes into the init layout.
pub open spec fn sphere_position_code(m: PositionSphereModifier) -> Seq<char> {
    "\n    // >>> [PositionSphereModifier]\n    // Sphere center\n    let c = "@
        + vec3_wgsl(m.center.x@, m.center.y@, m.center.z@)
        + ";\n    // Sphere radius\n    "@ + sphere_radius_code(m.dimension, m.radius@)
        + "\n    // Spawn randomly along the sphere surface using Archimedes's theorem\n    var theta = rand() * tau;\n    var z = rand() * 2. - 1.;\n    var phi = acos(z);\n    var sinphi = sin(phi);\n    var x = sinphi * cos(theta);\n    var y = sinphi * sin(theta);\n    var dir = vec3<f32>(x, y, z);\n    ret.pos = c + r * dir;\n    // Speed code\n    "@
        + radial_speed_code(m.speed, m.rotation)
        + "\n    // <<< [PositionSphereModifier]\n"@
}

impl Default for PositionSphereModifier {
    /// A sphere at the origin with identity rotation, zero radius, default
    /// speed and dimension.
    fn default() -> (r: PositionSphereModifier)
        ensures
            r.center.x@ == "0"@ && r.center.y@ == "0"@ && r.center.z@ == "0"@,
            r.rotation.x@ == "0"@ && r.rotation.y@ == "0"@ && r.rotation.z@ == "0"@
                && r.rotation.w@ == "1"@,
            r.radius@ == "0"@,
            r.speed matches SpeedVector::Radial(Value::Single(s)) && s@ == "1"@,
            r.dimension == ShapeDimension::Surface,
    {
        PositionSphereModifier {
            center: Vec3Expr::zero(),
            radius: Scalar::zero(),
            rotation: QuatExpr::identity(),
            speed: SpeedVector::default(),
            dimension: ShapeDimension::default(),
        }
    }
}

impl InitModifier for PositionSphereModifier {
    /// Overwrites the init layout's position code with the sphere's
    /// statement block.
    fn apply(&self, init_layout: &mut InitLayout)
        ensures
            final(init_layout).position_code@ == sphere_position_code(*self),
    {
        let mut code = String::from_str(
            "\n    // >>> [PositionSphereModifier]\n    // Sphere center\n    let c = ",
        );
        append_vec3(&mut code, &self.center);
        code.append(";\n    // Sphere radius\n    ");
        match self.dimension {
            ShapeDimension::Surface => {
                code.append("let r = ");
                code.append(self.radius.as_str());
                code.append(";");
            },
            ShapeDimension::Volume => {
                code.append("var r = pow(rand(), 1./3.) * ");
                code.append(self.radius.as_str());
                code.append(";");
            },
        }
        code.append(
            "\n    // Spawn randomly along the sphere surface using Archimedes's theorem\n    var theta = rand() * tau;\n    var z = rand() * 2. - 1.;\n    var phi = acos(z);\n    var sinphi = sin(phi);\n    var x = sinphi * cos(theta);\n    var y = sinphi * sin(theta);\n    var dir = vec3<f32>(x, y, z);\n    ret.pos = c + r * dir;\n    // Speed code\n    ",
        );
        append_radial_speed(&mut code, &self.speed, &self.rotation);
        code.append("\n    // <<< [PositionSphereModifier]\n");
        proof {
            assert(code@ =~= sphere_position_code(*self));
        }
        init_layout.position_code = code;
    }
}

/// The extents statement of the cube: the configured half-extents held at
/// the faces (surface), or rescaled component-wise by centered uniform
/// samples (volume; per-axis uniformity needs no correction).
pub open spec fn cube_extents_code(dimension: ShapeDimension, extents: Seq<char>) -> Seq<
    char,
> {
    match dimension {
        ShapeDimension::Surface => "let extents = "@ + extents + ";"@,
        ShapeDimension::Volume => "var extents = (rand3() - vec3<f32>(0.5, 0.5, 0.5)) * "@
            + extents + ";"@,
    }
}

/// The velocity statement of the cube.  Unlike circle and sphere, `Normal`
/// (the locked face axis, signed) and `Radial` (the full position vector
/// away from the center) differ here.
pub open spec fn cube_speed_code(speed: SpeedVector) -> Seq<char> {
    match speed {
        SpeedVector::Normal(s) => "\n    var normal = vec3<f32>(0., 0., 0.);\n    normal[ si[0] ] = locked_axis_sign;\n    ret.vel = rotate_point(normal * "@
            + value_wgsl(s) + ", rot);\n                    "@,
        SpeedVector::Radial(s) => "ret.vel = ret.pos * "@ + value_wgsl(s) + ";"@,
        SpeedVector::Local(x, y, z) => "ret.vel = rotate_point(vec3<f32>("@
            + value_triple(x, y, z) + "), rot);"@,
        SpeedVector::World(x, y, z) => "ret.vel = vec3<f32>("@ + value_triple(x, y, z)
            + ");"@,
    }
}

/// An initialization modifier spawning particles on a cube.
#[derive(Clone, PartialEq, Eq, Debug)]
pub struct PositionCubeModifier {
    /// The cube center, relative to the emitter position.
    pub center: Vec3Expr,
    /// The box extents (half-sizes).
    pub extents: Vec3Expr,
    /// The box rotation.
    pub rotation: QuatExpr,
    /// The speed of the particles on spawn.
    pub speed: SpeedVector,
    /// The shape dimension to spawn from.
    pub dimension: ShapeDimension,
}

/// The full statement block the cube modifier writes into the init layout.
/// The cube samples a face point in local space, rotates it, and translates
/// to world space only at the end.
pub open spec fn cube_position_code(m: PositionCubeModifier) -> Seq<char> {
    "\n    // >>> [PositionCubeModifier]\n    // Box center\n    let c = "@
        + vec3_wgsl(m.center.x@, m.center.y@, m.center.z@)
        + ";\n    // Box rotation\n    let rot = "@
        + vec4_wgsl(m.rotation.x@, m.rotation.y@, m.rotation.z@, m.rotation.w@)
        + ";\n    // Box extents\n    "@
        + cube_extents_code(m.dimension, vec3_wgsl(m.extents.x@, m.extents.y@, m.extents.z@))
        + "\n    // Spawn randomly along the (possibly randomized) box surface\n    // Choose a face randomly and find a point on that face\n    var s = rand_positive_int(6u);\n    var si = vec3<u32>(s, s + 1u, s + 2u) % 3u;\n    // si[0] is the selected face: lock the corresponding coordinate\n    var locked_axis_sign = 0.;\n    if (s > 2u) {\n        locked_axis_sign = 1.;\n    } else {\n        locked_axis_sign = -1.;\n    }\n    ret.pos[ si[0] ] = locked_axis_sign * .5 * extents[ si[0] ];\n    \n    // 2 degrees of freedom for the remaining coordinates\n    ret.pos[ si[1] ] = (rand() - .5) * extents[ si[1] ];\n    ret.pos[ si[2] ] = (rand() - .5) * extents[ si[2] ];\n    \n    // Apply rotation\n    ret.pos = rotate_point(ret.pos, rot);\n    \n    // Speed\n    "@
        + cube_speed_code(m.speed)
        + "\n    \n    // Put position in world space\n    ret.pos = ret.pos + c;\n    // <<< [PositionCubeModifier]\n"@
}

impl Default for PositionCubeModifier {
    /// A cube at the origin with identity rotation, zero extents, default
    /// speed and dimension.
    fn default() -> (r: PositionCubeModifier)
        ensures
            r.center.x@ == "0"@ && r.center.y@ == "0"@ && r.center.z@ == "0"@,
            r.extents.x@ == "0"@ && r.extents.y@ == "0"@ && r.extents.z@ == "0"@,
            r.rotation.x@ == "0"@ && r.rotation.y@ == "0"@ && r.rotation.z@ == "0"@
                && r.rotation.w@ == "1"@,
            r.speed matches SpeedVector::Radial(Value::Single(s)) && s@ == "1"@,
            r.dimension == ShapeDimension::Surface,
    {
        PositionCubeModifier {
            center: Vec3Expr::zero(),
            extents: Vec3Expr::zero(),
            rotation: QuatExpr::identity(),
            speed: SpeedVector::default(),
            dimension: ShapeDimension::default(),
        }
    }
}

impl InitModifier for PositionCubeModifier {
    /// Overwrites the init layout's position code with the cube's statement
    /// block.
    fn apply(&self, init_layout: &mut InitLayout)
        ensures
            final(init_layout).position_code@ == cube_position_code(*self),
    {
        let mut code = String::from_str(
            "\n    // >>> [PositionCubeModifier]\n    // Box center\n    let c = ",
        );
        append_vec3(&mut code, &self.center);
        code.append(";\n    // Box rotation\n    let rot = ");
        let rot = self.rotation.to_wgsl_string();
        code.append(rot.as_str());
        code.append(";\n    // Box extents\n    ");
        match self.dimension {
            ShapeDimension::Surface => {
                code.append("let extents = ");
                append_vec3(&mut code, &self.extents);
                code.append(";");
            },
            ShapeDimension::Volume => {
                code.append("var extents = (rand3() - vec3<f32>(0.5, 0.5, 0.5)) * ");
                append_vec3(&mut code, &self.extents);
                code.append(";");
            },
        }
        code.append(
            "\n    // Spawn randomly along the (possibly randomized) box surface\n    // Choose a face randomly and find a point on that face\n    var s = rand_positive_int(6u);\n    var si = vec3<u32>(s, s + 1u, s + 2u) % 3u;\n    // si[0] is the selected face: lock the corresponding coordinate\n    var locked_axis_sign = 0.;\n    if (s > 2u) {\n        locked_axis_sign = 1.;\n    } else {\n        locked_axis_sign = -1.;\n    }\n    ret.pos[ si[0] ] = locked_axis_sign * .5 * extents[ si[0] ];\n    \n    // 2 degrees of freedom for the remaining coordinates\n    ret.pos[ si[1] ] = (rand() - .5) * extents[ si[1] ];\n    ret.pos[ si[2] ] = (rand() - .5) * extents[ si[2] ];\n    \n    // Apply rotation\n    ret.pos = rotate_point(ret.pos, rot);\n    \n    // Speed\n    ",
        );
        match &self.speed {
            SpeedVector::Normal(s) => {
                code.append(
                    "\n    var normal = vec3<f32>(0., 0., 0.);\n    normal[ si[0] ] = locked_axis_sign;\n    ret.vel = rotate_point(normal * ",
                );
                let v = s.to_wgsl_string();
                code.append(v.as_str());
                code.append(", rot);\n                    ");
            },
            SpeedVector::Radial(s) => {
                code.append("ret.vel = ret.pos * ");
                let v = s.to_wgsl_string();
                code.append(v.as_str());
                code.append(";");
            },
            SpeedVector::Local(x, y, z) => {
                code.append("ret.vel = rotate_point(vec3<f32>(");
                append_value_triple(&mut code, x, y, z);
                code.append("), rot);");
            },
            SpeedVector::World(x, y, z) => {
                code.append("ret.vel = vec3<f32>(");
                append_value_triple(&mut code, x, y, z);
                code.append(");");
            },
        }
        code.append(
            "\n    \n    // Put position in world space\n    ret.pos = ret.pos + c;\n    // <<< [PositionCubeModifier]\n",
        );
        proof {
            assert(code@ =~= cube_position_code(*self));
        }
        init_layout.position_code = code;
    }
}

/// Appends the `vec3<f32>` constructor of `v` to `out`.
fn append_vec3(out: &mut String, v: &Vec3Expr)
    ensures
        final(out)@ == old(out)@ + vec3_wgsl(v.x@, v.y@, v.z@),
{
    let s = v.to_wgsl_string();
    out.append(s.as_str());
}

/// Appends the comma-separated splice of three value expressions to `out`.
fn append_value_triple(out: &mut String, x: &Value, y: &Value, z: &Value)
    ensures
        final(out)@ == old(out)@ + value_triple(*x, *y, *z),
{
    let sx = x.to_wgsl_string();
    out.append(sx.as_str());
    out.append(", ");
    let sy = y.to_wgsl_string();
    out.append(sy.as_str());
    out.append(", ");
    let sz = z.to_wgsl_string();
    out.append(sz.as_str());
    proof {
        assert(out@ =~= old(out)@ + value_triple(*x, *y, *z));
    }
}

/// Appends the circle/sphere velocity statement to `out`.
fn append_radial_speed(out: &mut String, speed: &SpeedVector, rotation: &QuatExpr)
    ensures
        final(out)@ == old(out)@ + radial_speed_code(*speed, *rotation),
{
    match speed {
        SpeedVector::Normal(s) => {
            out.append("ret.vel = dir * (");
            let v = s.to_wgsl_string();
            out.append(v.as_str());
            out.append(");");
        },
        SpeedVector::Radial(s) => {
            out.append("ret.vel = dir * (");
            let v = s.to_wgsl_string();
            out.append(v.as_str());
            out.append(");");
        },
        SpeedVector::Local(x, y, z) => {
            out.append("\n    let rot = ");
            let rot = rotation.to_wgsl_string();
            out.append(rot.as_str());
            out.append(";\n    ret.vel = rotate_point(vec3<f32>(");
            append_value_triple(out, x, y, z);
            out.append("), rot);\n                        ");
        },
        SpeedVector::World(x, y, z) => {
            out.append("ret.vel = vec3<f32>(");
            append_value_triple(out, x, y, z);
            out.append(");");
        },
    }
    proof {
        assert(out@ =~= old(out)@ + radial_speed_code(*speed, *rotation));
    }
}

} // verus!
