//! End-to-end tests of the modifier family: emitted shader text, force-field
//! slot handling, and layout population.

use particle_modifiers::data::{
    ForceFieldParam, GradientKey, Gradient, TextureHandle, Vec2Data, Vec3Data, Vec4Data,
    DEFAULT_MIN_RADIUS_BITS, FFNUM,
};
use particle_modifiers::force_field::ForceFieldModifier;
use particle_modifiers::layout::{InitLayout, RenderLayout, UpdateLayout};
use particle_modifiers::modifier::{
    AccelModifier, ColorOverLifetimeModifier, InitModifier, ParticleTextureModifier,
    RenderModifier, SizeOverLifetimeModifier, UpdateModifier,
};
use particle_modifiers::shape::{
    PositionCircleModifier, PositionCubeModifier, PositionSphereModifier, ShapeDimension,
    SpeedVector,
};
use particle_modifiers::wgsl::{QuatExpr, Scalar, Value, Vec3Expr};

fn scalar(v: f32) -> Scalar {
    Scalar::new(format!("{}", v)).unwrap()
}

fn vec3e(x: f32, y: f32, z: f32) -> Vec3Expr {
    Vec3Expr { x: scalar(x), y: scalar(y), z: scalar(z) }
}

fn circle(radius: f32, dimension: ShapeDimension, speed: SpeedVector) -> PositionCircleModifier {
    PositionCircleModifier { radius: scalar(radius), dimension, speed, ..Default::default() }
}

fn sphere(radius: f32, dimension: ShapeDimension, speed: SpeedVector) -> PositionSphereModifier {
    PositionSphereModifier { radius: scalar(radius), dimension, speed, ..Default::default() }
}

fn cube(extents: Vec3Expr, dimension: ShapeDimension, speed: SpeedVector) -> PositionCubeModifier {
    PositionCubeModifier { extents, dimension, speed, ..Default::default() }
}

fn render(m: &dyn InitModifier) -> String {
    let mut layout = InitLayout::new();
    m.apply(&mut layout);
    layout.position_code
}

fn radius_line(code: &str, marker: &str) -> String {
    let at = code.find(marker).expect("radius marker present");
    let rest = &code[at + marker.len()..];
    let line = rest.lines().nth(1).expect("radius statement line");
    line.trim().to_string()
}

#[test]
fn scalar_accepts_numeric_tokens() {
    assert!(Scalar::new(String::from("2")).is_some());
    assert!(Scalar::new(format!("{}", -1.5e-3f32)).is_some());
    assert!(Scalar::new(String::from("0.25")).is_some());
}

#[test]
fn scalar_rejects_non_numeric_tokens() {
    assert!(Scalar::new(String::from("")).is_none());
    assert!(Scalar::new(String::from("rand()")).is_none());
    assert!(Scalar::new(String::from("1; let x = 2")).is_none());
}

#[test]
fn value_single_renders_the_literal() {
    assert_eq!(Value::Single(scalar(5.0)).to_wgsl_string(), "5");
    assert_eq!(Value::Single(scalar(0.25)).to_wgsl_string(), "0.25");
}

#[test]
fn value_uniform_renders_one_sampling_call() {
    let v = Value::Uniform(scalar(1.0), scalar(3.0));
    assert_eq!(v.to_wgsl_string(), "(rand() * (3 - 1) + 1)");
}

#[test]
fn vector_constructors_render_componentwise() {
    assert_eq!(vec3e(1.0, 2.5, -3.0).to_wgsl_string(), "vec3<f32>(1, 2.5, -3)");
    let q = QuatExpr::identity();
    assert_eq!(q.to_wgsl_string(), "vec4<f32>(0, 0, 0, 1)");
}

#[test]
fn surface_radius_is_a_fixed_literal_circle() {
    let speed = SpeedVector::Radial(Value::Single(scalar(1.0)));
    let code = render(&circle(2.0, ShapeDimension::Surface, speed));
    let line = radius_line(&code, "// Circle radius");
    assert_eq!(line, "let r = 2;");
    assert!(!line.contains("rand"));
}

#[test]
fn surface_radius_is_a_fixed_literal_sphere() {
    let speed = SpeedVector::Radial(Value::Single(scalar(1.0)));
    let code = render(&sphere(2.0, ShapeDimension::Surface, speed));
    let line = radius_line(&code, "// Sphere radius");
    assert_eq!(line, "let r = 2;");
    assert!(!line.contains("rand"));
}

#[test]
fn volume_radius_draws_one_sample_circle() {
    let speed = SpeedVector::Radial(Value::Single(scalar(1.0)));
    let code = render(&circle(2.0, ShapeDimension::Volume, speed));
    let line = radius_line(&code, "// Circle radius");
    assert_eq!(line, "let r = sqrt(rand()) * 2;");
    assert_eq!(line.matches("rand").count(), 1);
}

#[test]
fn volume_radius_draws_one_sample_sphere() {
    let speed = SpeedVector::Radial(Value::Single(scalar(1.0)));
    let code = render(&sphere(2.0, ShapeDimension::Volume, speed));
    let line = radius_line(&code, "// Sphere radius");
    assert_eq!(line, "var r = pow(rand(), 1./3.) * 2;");
    assert_eq!(line.matches("rand").count(), 1);
}

#[test]
fn volume_extents_draw_one_sample_cube() {
    let speed = SpeedVector::Radial(Value::Single(scalar(1.0)));
    let code = render(&cube(vec3e(1.0, 2.0, 3.0), ShapeDimension::Volume, speed));
    let line = radius_line(&code, "// Box extents");
    assert_eq!(line, "var extents = (rand3() - vec3<f32>(0.5, 0.5, 0.5)) * vec3<f32>(1, 2, 3);");
    assert_eq!(line.matches("rand").count(), 1);
}

#[test]
fn normal_and_radial_speed_match_for_circle_and_sphere() {
    for dimension in [ShapeDimension::Surface, ShapeDimension::Volume] {
        let normal = SpeedVector::Normal(Value::Single(scalar(4.5)));
        let radial = SpeedVector::Radial(Value::Single(scalar(4.5)));
        assert_eq!(
            render(&circle(2.0, dimension, normal.clone())),
            render(&circle(2.0, dimension, radial.clone()))
        );
        assert_eq!(
            render(&sphere(2.0, dimension, normal)),
            render(&sphere(2.0, dimension, radial))
        );
    }
}

#[test]
fn normal_and_radial_speed_differ_for_cube() {
    let normal = SpeedVector::Normal(Value::Single(scalar(4.5)));
    let radial = SpeedVector::Radial(Value::Single(scalar(4.5)));
    let extents = vec3e(1.0, 1.0, 1.0);
    let with_normal = render(&cube(extents.clone(), ShapeDimension::Surface, normal));
    let with_radial = render(&cube(extents, ShapeDimension::Surface, radial));
    assert_ne!(with_normal, with_radial);
    assert!(with_normal.contains("normal[ si[0] ] = locked_axis_sign;"));
    assert!(with_radial.contains("ret.vel = ret.pos * 4.5;"));
}

#[test]
fn local_speed_uses_the_rotation() {
    let speed = SpeedVector::Local(
        Value::Single(scalar(1.0)),
        Value::Single(scalar(2.0)),
        Value::Single(scalar(3.0)),
    );
    let code = render(&circle(1.0, ShapeDimension::Surface, speed));
    assert!(code.contains("let rot = vec4<f32>(0, 0, 0, 1);"));
    assert!(code.contains("ret.vel = rotate_point(vec3<f32>(1, 2, 3), rot);"));
}

#[test]
fn world_speed_ignores_the_rotation() {
    let speed = SpeedVector::World(
        Value::Single(scalar(1.0)),
        Value::Single(scalar(2.0)),
        Value::Single(scalar(3.0)),
    );
    let code = render(&sphere(1.0, ShapeDimension::Surface, speed));
    assert!(code.contains("ret.vel = vec3<f32>(1, 2, 3);"));
    assert!(!code.contains("rotate_point"));
}

#[test]
fn sphere_volume_radial_end_to_end() {
    let speed = SpeedVector::Radial(Value::Single(scalar(5.0)));
    let m = PositionSphereModifier {
        center: vec3e(0.0, 0.0, 0.0),
        radius: scalar(2.0),
        dimension: ShapeDimension::Volume,
        speed,
        ..Default::default()
    };
    let code = render(&m);
    assert!(code.contains("let c = vec3<f32>(0, 0, 0);"));
    assert!(code.contains("pow(rand(), 1./3.) * 2"));
    assert!(code.contains("ret.vel = dir * (5);"));
}

fn source(mass: f32, x: f32) -> ForceFieldParam {
    ForceFieldParam {
        position: Vec3Data { x: x.to_bits(), y: 0, z: 0 },
        max_radius: 10.0f32.to_bits(),
        min_radius: 0.1f32.to_bits(),
        mass: mass.to_bits(),
        force_exponent: 2.0f32.to_bits(),
        conform_to_sphere: false,
    }
}

#[test]
fn default_param_is_the_zero_mass_sentinel() {
    let p = ForceFieldParam::default();
    assert_eq!(p.mass, 0.0f32.to_bits());
    assert_eq!(p.min_radius, 0.1f32.to_bits());
    assert_eq!(p.min_radius, DEFAULT_MIN_RADIUS_BITS);
    assert_eq!(p.max_radius, 0);
    assert!(p.is_sentinel());
}

#[test]
fn empty_force_field_stops_at_slot_zero() {
    let m = ForceFieldModifier::new(Vec::new());
    assert!(m.force_field[0].is_sentinel());
    assert_eq!(m.active_len(), 0);
}

#[test]
fn full_force_field_preserves_source_order() {
    let mut sources = Vec::new();
    for i in 0..FFNUM {
        sources.push(source(1.0 + i as f32, i as f32));
    }
    let m = ForceFieldModifier::new(sources.clone());
    for i in 0..FFNUM {
        assert_eq!(m.force_field[i], sources[i]);
    }
    assert_eq!(m.active_len(), FFNUM);
}

#[test]
fn partial_force_field_pads_with_sentinels() {
    let sources = vec![source(1.0, 0.0), source(-2.0, 1.0)];
    let m = ForceFieldModifier::new(sources.clone());
    assert_eq!(m.force_field[0], sources[0]);
    assert_eq!(m.force_field[1], sources[1]);
    for i in 2..FFNUM {
        assert_eq!(m.force_field[i], ForceFieldParam::default());
    }
    assert_eq!(m.active_len(), 2);
}

#[test]
fn add_or_replace_touches_one_slot_only() {
    let mut sources = Vec::new();
    for i in 0..FFNUM {
        sources.push(source(1.0 + i as f32, i as f32));
    }
    let mut m = ForceFieldModifier::new(sources);
    let before = m.force_field;
    let replacement = source(-9.0, 42.0);
    m.add_or_replace(replacement, 3);
    assert_eq!(m.force_field[3], replacement);
    for i in 0..FFNUM {
        if i != 3 {
            assert_eq!(m.force_field[i], before[i]);
        }
    }
}

#[test]
fn force_field_apply_copies_all_slots() {
    let sources = vec![source(1.0, 0.0)];
    let m = ForceFieldModifier::new(sources);
    let mut layout = UpdateLayout::new();
    layout.accel = Vec3Data { x: 1, y: 2, z: 3 };
    UpdateModifier::apply(&m, &mut layout);
    for i in 0..FFNUM {
        assert_eq!(layout.force_field[i], m.force_field[i]);
    }
    assert_eq!(layout.accel, Vec3Data { x: 1, y: 2, z: 3 });
}

#[test]
fn accel_apply_leaves_force_field_alone() {
    let m = AccelModifier { accel: Vec3Data { x: 0, y: (-9.81f32).to_bits(), z: 0 } };
    let mut layout = UpdateLayout::new();
    let ff = ForceFieldModifier::new(vec![source(1.0, 0.0)]);
    UpdateModifier::apply(&ff, &mut layout);
    UpdateModifier::apply(&m, &mut layout);
    assert_eq!(layout.accel.y, (-9.81f32).to_bits());
    assert_eq!(layout.force_field[0], ff.force_field[0]);
}

#[test]
fn render_modifiers_fill_their_own_slots() {
    let mut layout = RenderLayout::new();
    let texture = ParticleTextureModifier { texture: TextureHandle { id: 7 } };
    let color = ColorOverLifetimeModifier {
        gradient: Gradient {
            keys: vec![GradientKey {
                time: 0.0f32.to_bits(),
                value: Vec4Data { x: 0, y: 0, z: 0, w: 1.0f32.to_bits() },
            }],
        },
    };
    let size = SizeOverLifetimeModifier {
        gradient: Gradient {
            keys: vec![GradientKey {
                time: 1.0f32.to_bits(),
                value: Vec2Data { x: 2.0f32.to_bits(), y: 2.0f32.to_bits() },
            }],
        },
    };
    RenderModifier::apply(&texture, &mut layout);
    RenderModifier::apply(&color, &mut layout);
    RenderModifier::apply(&size, &mut layout);
    assert_eq!(layout.particle_texture, Some(TextureHandle { id: 7 }));
    assert_eq!(layout.lifetime_color_gradient.unwrap().keys, color.gradient.keys);
    assert_eq!(layout.size_color_gradient.unwrap().keys, size.gradient.keys);
}

#[test]
fn two_fresh_passes_emit_identical_output() {
    let speed = SpeedVector::Normal(Value::Single(scalar(3.5)));
    let shape = sphere(1.5, ShapeDimension::Volume, speed);
    let accel = AccelModifier { accel: Vec3Data { x: 0, y: (-9.81f32).to_bits(), z: 0 } };
    let field = ForceFieldModifier::new(vec![source(2.0, 1.0)]);

    let mut init_a = InitLayout::new();
    let mut init_b = InitLayout::new();
    InitModifier::apply(&shape, &mut init_a);
    InitModifier::apply(&shape, &mut init_b);
    assert_eq!(init_a.position_code, init_b.position_code);

    let mut update_a = UpdateLayout::new();
    let mut update_b = UpdateLayout::new();
    for layout in [&mut update_a, &mut update_b] {
        UpdateModifier::apply(&accel, layout);
        UpdateModifier::apply(&field, layout);
    }
    assert_eq!(update_a.accel, update_b.accel);
    for i in 0..FFNUM {
        assert_eq!(update_a.force_field[i], update_b.force_field[i]);
    }
}

#[test]
fn default_modifiers_use_the_unit_frame() {
    let c = PositionCircleModifier::default();
    assert_eq!(c.tangent.to_wgsl_string(), "vec3<f32>(1, 0, 0)");
    assert_eq!(c.bitangent.to_wgsl_string(), "vec3<f32>(0, 0, 1)");
    assert_eq!(c.rotation.to_wgsl_string(), "vec4<f32>(0, 0, 0, 1)");
    assert!(matches!(c.dimension, ShapeDimension::Surface));
    match c.speed {
        SpeedVector::Radial(Value::Single(s)) => assert_eq!(s.as_str(), "1"),
        other => panic!("unexpected default speed {:?}", other),
    }
}

#[test]
fn sentinel_in_the_middle_truncates_evaluation() {
    let sources = vec![source(1.0, 0.0), source(0.0, 1.0), source(3.0, 2.0)];
    let m = ForceFieldModifier::new(sources);
    assert_eq!(m.active_len(), 1);
    assert!(m.force_field[1].is_sentinel());
    assert!(!m.force_field[2].is_sentinel());
}

#[test]
fn uniform_speed_renders_inside_the_velocity() {
    let speed = SpeedVector::Radial(Value::Uniform(scalar(1.0), scalar(3.0)));
    let code = render(&sphere(1.0, ShapeDimension::Surface, speed));
    assert!(code.contains("ret.vel = dir * ((rand() * (3 - 1) + 1));"));
}

#[test]
fn later_position_modifier_overwrites_earlier_one() {
    let speed = SpeedVector::Radial(Value::Single(scalar(1.0)));
    let first = circle(2.0, ShapeDimension::Surface, speed.clone());
    let second = sphere(3.0, ShapeDimension::Volume, speed.clone());
    let mut layout = InitLayout::new();
    InitModifier::apply(&first, &mut layout);
    InitModifier::apply(&second, &mut layout);
    assert_eq!(layout.position_code, render(&second));
    assert!(!layout.position_code.contains("PositionCircleModifier"));
}
