//! Proved laws of the emitted shader text.
//!
//! Beyond the exact text the `apply` contracts pin down, the generator
//! promises a few facts a consumer relies on: a surface radius is a plain
//! literal with no random sampling in it; a volume radius or extent draws
//! exactly one random sample; the round shapes render `Normal` and `Radial`
//! speed identically, while the cube distinguishes them; and every emitted
//! block is a function of the modifier value alone.

use vstd::prelude::*;

use crate::shape::{PositionCircleModifier, PositionCubeModifier, PositionSphereModifier,
    ShapeDimension, SpeedVector, circle_position_code, circle_radius_code, cube_extents_code,
    cube_position_code, cube_speed_code, radial_speed_code, sphere_position_code,
    sphere_radius_code};
use crate::wgsl::{QuatExpr, Value, is_numeric_char, is_numeric_text, vec3_wgsl};

verus! {

/// `pat` occurs in `s` starting at index `i`.
pub open spec fn match_at(s: Seq<char>, pat: Seq<char>, i: int) -> bool {
    &&& 0 <= i
    &&& i + pat.len() <= s.len()
    &&& s.subrange(i, i + pat.len()) == pat
}

/// `pat` occurs somewhere in `s`.
pub open spec fn contains_token(s: Seq<char>, pat: Seq<char>) -> bool {
    exists|i: int| match_at(s, pat, i)
}

/// The character `c` occurs nowhere in `s`.
pub open spec fn avoids_char(s: Seq<char>, c: char) -> bool {
    forall|j: int| 0 <= j < s.len() ==> s[j] != c
}

/// In `s` the character `c` occurs at no position other than `p`.
pub open spec fn only_at(s: Seq<char>, c: char, p: int) -> bool {
    forall|j: int| 0 <= j < s.len() && j != p ==> s[j] != c
}

proof fn lemma_avoids_concat(a: Seq<char>, b: Seq<char>, c: char)
    requires
        avoids_char(a, c),
        avoids_char(b, c),
    ensures
        avoids_char(a + b, c),
{
    assert forall|j: int| 0 <= j < (a + b).len() implies (a + b)[j] != c by {
        if j < a.len() {
            assert((a + b)[j] == a[j]);
        } else {
            assert((a + b)[j] == b[j - a.len()]);
        }
    }
}

proof fn lemma_only_at_concat(a: Seq<char>, b: Seq<char>, c: char, p: int)
    requires
        only_at(a, c, p),
        avoids_char(b, c),
    ensures
        only_at(a + b, c, p),
{
    assert forall|j: int| 0 <= j < (a + b).len() && j != p implies (a + b)[j] != c by {
        if j < a.len() {
            assert((a + b)[j] == a[j]);
        } else {
            assert((a + b)[j] == b[j - a.len()]);
        }
    }
}

/// A numeric-literal token never holds a character foreign to numeric
/// literals.
proof fn lemma_numeric_avoids(s: Seq<char>, c: char)
    requires
        forall|j: int| 0 <= j < s.len() ==> is_numeric_char(#[trigger] s[j]),
        !is_numeric_char(c),
    ensures
        avoids_char(s, c),
{
}

/// A token cannot occur in text that avoids one of the token's characters.
proof fn lemma_avoids_no_match(s: Seq<char>, pat: Seq<char>, k: int)
    requires
        0 <= k < pat.len(),
        avoids_char(s, pat[k]),
    ensures
        forall|i: int| !match_at(s, pat, i),
{
    assert forall|i: int| !match_at(s, pat, i) by {
        if match_at(s, pat, i) {
            assert(s.subrange(i, i + pat.len())[k] == s[i + k]);
            assert(s[i + k] == pat[k]);
        }
    }
}

/// When one character of the token occurs at a single position of the text,
/// the token can start at a single position only.
proof fn lemma_only_at_single_match(s: Seq<char>, pat: Seq<char>, k: int, p: int)
    requires
        0 <= k < pat.len(),
        only_at(s, pat[k], p),
    ensures
        forall|i: int| match_at(s, pat, i) ==> i == p - k,
{
    assert forall|i: int| match_at(s, pat, i) implies i == p - k by {
        assert(s.subrange(i, i + pat.len())[k] == s[i + k]);
        assert(s[i + k] == pat[k]);
    }
}

/// Law: with the shape dimension at `Surface`, the circle and sphere radius
/// statement holds the configured radius as a fixed literal, and no
/// random-sampling token (`rand`) occurs anywhere in it.
pub proof fn lemma_surface_radius_is_plain_literal(radius: Seq<char>)
    requires
        is_numeric_text(radius),
    ensures
        circle_radius_code(ShapeDimension::Surface, radius) == "let r = "@ + radius + ";"@,
        sphere_radius_code(ShapeDimension::Surface, radius) == "let r = "@ + radius + ";"@,
        forall|i: int|
            !match_at(circle_radius_code(ShapeDimension::Surface, radius), "rand"@, i),
        forall|i: int|
            !match_at(sphere_radius_code(ShapeDimension::Surface, radius), "rand"@, i),
{
    reveal_strlit("let r = ");
    reveal_strlit(";");
    reveal_strlit("rand");
    let code = circle_radius_code(ShapeDimension::Surface, radius);
    assert(avoids_char("let r = "@, 'a'));
    assert(avoids_char(";"@, 'a'));
    lemma_numeric_avoids(radius, 'a');
    lemma_avoids_concat("let r = "@, radius, 'a');
    lemma_avoids_concat("let r = "@ + radius, ";"@, 'a');
    assert("rand"@[1] == 'a');
    lemma_avoids_no_match(code, "rand"@, 1);
}

/// Law: with the shape dimension at `Volume`, the circle radius statement
/// draws exactly one random sample, square-rooted to keep the disc sampling
/// unbiased: the `rand` token occurs at exactly one position.
pub proof fn lemma_volume_radius_single_sample_circle(radius: Seq<char>)
    requires
        is_numeric_text(radius),
    ensures
        circle_radius_code(ShapeDimension::Volume, radius) == "let r = sqrt(rand()) * "@
            + radius + ";"@,
        contains_token(circle_radius_code(ShapeDimension::Volume, radius), "rand"@),
        forall|i: int, j: int|
            match_at(circle_radius_code(ShapeDimension::Volume, radius), "rand"@, i)
                && match_at(circle_radius_code(ShapeDimension::Volume, radius), "rand"@, j)
                ==> i == j,
{
    reveal_strlit("let r = sqrt(rand()) * ");
    reveal_strlit(";");
    reveal_strlit("rand");
    let lit = "let r = sqrt(rand()) * "@;
    let code = circle_radius_code(ShapeDimension::Volume, radius);
    assert(lit.len() == 23);
    assert(only_at(lit, 'd', 16));
    lemma_numeric_avoids(radius, 'd');
    assert(avoids_char(";"@, 'd'));
    lemma_avoids_concat(radius, ";"@, 'd');
    lemma_only_at_concat(lit, radius + ";"@, 'd', 16);
    assert(code =~= lit + (radius + ";"@));
    assert("rand"@[3] == 'd');
    lemma_only_at_single_match(code, "rand"@, 3, 16);
    assert(code.subrange(13, 17) =~= "rand"@);
    assert(match_at(code, "rand"@, 13));
}

/// Law: with the shape dimension at `Volume`, the sphere radius statement
/// draws exactly one random sample, raised to the power one third to keep
/// the ball sampling unbiased: the `rand` token occurs at exactly one
/// position.
pub proof fn lemma_volume_radius_single_sample_sphere(radius: Seq<char>)
    requires
        is_numeric_text(radius),
    ensures
        sphere_radius_code(ShapeDimension::Volume, radius) == "var r = pow(rand(), 1./3.) * "@
            + radius + ";"@,
        contains_token(sphere_radius_code(ShapeDimension::Volume, radius), "rand"@),
        forall|i: int, j: int|
            match_at(sphere_radius_code(ShapeDimension::Volume, radius), "rand"@, i)
                && match_at(sphere_radius_code(ShapeDimension::Volume, radius), "rand"@, j)
                ==> i == j,
{
    reveal_strlit("var r = pow(rand(), 1./3.) * ");
    reveal_strlit(";");
    reveal_strlit("rand");
    let lit = "var r = pow(rand(), 1./3.) * "@;
    let code = sphere_radius_code(ShapeDimension::Volume, radius);
    assert(lit.len() == 29);
    assert(only_at(lit, 'd', 15));
    lemma_numeric_avoids(radius, 'd');
    assert(avoids_char(";"@, 'd'));
    lemma_avoids_concat(radius, ";"@, 'd');
    lemma_only_at_concat(lit, radius + ";"@, 'd', 15);
    assert(code =~= lit + (radius + ";"@));
    assert("rand"@[3] == 'd');
    lemma_only_at_single_match(code, "rand"@, 3, 15);
    assert(code.subrange(12, 16) =~= "rand"@);
    assert(match_at(code, "rand"@, 12));
}

/// Law: with the shape dimension at `Volume`, the cube extents statement
/// draws exactly one random sample (one `rand` token, here the
/// three-component `rand3()` primitive); component-wise uniformity needs no
/// further correction.
pub proof fn lemma_volume_extents_single_sample_cube(x: Seq<char>, y: Seq<char>, z: Seq<char>)
    requires
        is_numeric_text(x),
        is_numeric_text(y),
        is_numeric_text(z),
    ensures
        contains_token(cube_extents_code(ShapeDimension::Volume, vec3_wgsl(x, y, z)), "rand"@),
        forall|i: int, j: int|
            match_at(cube_extents_code(ShapeDimension::Volume, vec3_wgsl(x, y, z)), "rand"@, i)
                && match_at(cube_extents_code(ShapeDimension::Volume, vec3_wgsl(x, y, z)),
                "rand"@, j) ==> i == j,
{
    reveal_strlit("var extents = (rand3() - vec3<f32>(0.5, 0.5, 0.5)) * ");
    reveal_strlit("vec3<f32>(");
    reveal_strlit(", ");
    reveal_strlit(")");
    reveal_strlit(";");
    reveal_strlit("rand");
    let lit = "var extents = (rand3() - vec3<f32>(0.5, 0.5, 0.5)) * "@;
    let vec = vec3_wgsl(x, y, z);
    let code = cube_extents_code(ShapeDimension::Volume, vec);
    assert(lit.len() == 53);
    assert(only_at(lit, 'd', 18));
    lemma_numeric_avoids(x, 'd');
    lemma_numeric_avoids(y, 'd');
    lemma_numeric_avoids(z, 'd');
    assert(avoids_char("vec3<f32>("@, 'd'));
    assert(avoids_char(", "@, 'd'));
    assert(avoids_char(")"@, 'd'));
    assert(avoids_char(";"@, 'd'));
    lemma_avoids_concat("vec3<f32>("@, x, 'd');
    lemma_avoids_concat("vec3<f32>("@ + x, ", "@, 'd');
    lemma_avoids_concat("vec3<f32>("@ + x + ", "@, y, 'd');
    lemma_avoids_concat("vec3<f32>("@ + x + ", "@ + y, ", "@, 'd');
    lemma_avoids_concat("vec3<f32>("@ + x + ", "@ + y + ", "@, z, 'd');
    lemma_avoids_concat("vec3<f32>("@ + x + ", "@ + y + ", "@ + z, ")"@, 'd');
    lemma_avoids_concat(vec, ";"@, 'd');
    lemma_only_at_concat(lit, vec + ";"@, 'd', 18);
    assert(code =~= lit + (vec + ";"@));
    assert("rand"@[3] == 'd');
    lemma_only_at_single_match(code, "rand"@, 3, 18);
    assert(code.subrange(15, 19) =~= "rand"@);
    assert(match_at(code, "rand"@, 15));
}

/// Law: for the circle and the sphere the outward surface normal is the
/// radial direction from the center, so `Normal` and `Radial` speed render
/// to identical velocity text (for any rotation, which neither variant
/// splices).
pub proof fn lemma_round_normal_radial_equal(s: Value, rotation: QuatExpr)
    ensures
        radial_speed_code(SpeedVector::Normal(s), rotation) == radial_speed_code(
            SpeedVector::Radial(s), rotation),
{
}

/// Law: for the cube, `Normal` (the locked face axis, signed) and `Radial`
/// (the full position vector) render to different velocity text, whatever
/// speed value both carry.
pub proof fn lemma_cube_normal_radial_differ(s: Value)
    ensures
        cube_speed_code(SpeedVector::Normal(s)) != cube_speed_code(SpeedVector::Radial(s)),
{
    reveal_strlit(
        "\n    var normal = vec3<f32>(0., 0., 0.);\n    normal[ si[0] ] = locked_axis_sign;\n    ret.vel = rotate_point(normal * ",
    );
    reveal_strlit(", rot);\n                    ");
    reveal_strlit("ret.vel = ret.pos * ");
    reveal_strlit(";");
    assert(cube_speed_code(SpeedVector::Normal(s)).len() > cube_speed_code(
        SpeedVector::Radial(s)).len());
}

/// Law: every emitted statement block is a function of the modifier value
/// alone.  Together with the `apply` contracts, which write exactly this
/// block and read nothing from the prior layout, one modifier list applied
/// to two freshly constructed layouts yields identical text and data.
pub proof fn lemma_emitted_code_deterministic(
    a: PositionCircleModifier,
    b: PositionCircleModifier,
    c: PositionSphereModifier,
    d: PositionSphereModifier,
    e: PositionCubeModifier,
    f: PositionCubeModifier,
)
    requires
        a == b,
        c == d,
        e == f,
    ensures
        circle_position_code(a) == circle_position_code(b),
        sphere_position_code(c) == sphere_position_code(d),
        cube_position_code(e) == cube_position_code(f),
{
}

} // verus!
