use tetra::graphics::mesh::VertexWinding;
use tetra::graphics::{Color, DrawParams, Rectangle, Transform};
use tetra::math::{Float, Mat4, Vec2};

fn num(value: f32) -> Float {
    Float::from_bits(value.to_bits())
}

fn val(f: Float) -> f32 {
    f32::from_bits(f.to_bits())
}

const SAMPLES: [f32; 20] = [
    72057594037927936.0,
    -72057600000000000.0,
    5.293956e-23,
    3.0e-23,
    0.0,
    -0.0,
    1.0,
    -1.0,
    0.5,
    -2.75,
    16777216.0,
    -16777216.0,
    16777218.0,
    f32::MIN_POSITIVE,
    1.0e-45,
    f32::MAX,
    f32::MIN,
    f32::INFINITY,
    f32::NEG_INFINITY,
    f32::NAN,
];

#[test]
fn flipped_is_an_involution() {
    assert_eq!(VertexWinding::Clockwise.flipped(), VertexWinding::CounterClockwise);
    assert_eq!(VertexWinding::CounterClockwise.flipped(), VertexWinding::Clockwise);
    for w in [VertexWinding::Clockwise, VertexWinding::CounterClockwise] {
        assert_eq!(w.flipped().flipped(), w);
    }
}

#[test]
fn classification_agrees_with_the_numbers() {
    for sample in SAMPLES {
        let f = num(sample);
        assert_eq!(f.finite(), sample.is_finite(), "{}", sample);
        assert_eq!(f.nan(), sample.is_nan(), "{}", sample);
        assert_eq!(f.positive(), sample > 0.0, "{}", sample);
        assert_eq!(f.curve_size(), sample.abs() <= 72057594037927936.0, "{}", sample);
        let radius = sample == 0.0
            || (sample.abs() >= 5.293956e-23 && sample.abs() <= 72057594037927936.0);
        assert_eq!(f.fill_radius(), radius, "{}", sample);
        assert_eq!(f.stroke_width(), sample > 0.0 && sample.is_finite(), "{}", sample);
    }
    assert!(num(5.293956e-23).fill_radius());
    assert!(!num(5.2939554e-23).fill_radius());
    assert!(num(-5.293956e-23).fill_radius());
    assert!(num(72057594037927936.0).curve_size());
    assert!(!num(72057600000000000.0).curve_size());
    assert!(num(f32::MAX).stroke_width());
    assert!(!num(f32::INFINITY).stroke_width());
    assert!(Float::from_bits(0xFFC0_0001).nan());
    assert!(!Float::from_bits(0xFFC0_0001).positive());
}

#[test]
fn neg_flips_the_sign() {
    for sample in SAMPLES {
        let negated = num(sample).neg();
        assert_eq!(negated.to_bits(), (-sample).to_bits(), "{}", sample);
        assert_eq!(negated.neg(), num(sample));
    }
    assert_eq!(val(num(2.5).neg()), -2.5);
    assert_eq!(num(0.0).neg().to_bits(), 0x8000_0000);
}

#[test]
fn constants() {
    assert_eq!(val(Float::zero()), 0.0);
    assert_eq!(Float::zero().to_bits(), 0);
    assert_eq!(val(Float::one()), 1.0);
    assert_eq!(Vec2::zero(), Vec2::new(num(0.0), num(0.0)));
    assert_eq!(Vec2::one(), Vec2::new(num(1.0), num(1.0)));
    assert_eq!(Color::white(), Color::rgba(num(1.0), num(1.0), num(1.0), num(1.0)));
}

#[test]
fn vec2_conversions() {
    let v = Vec2::from_bits(1.5f32.to_bits(), (-2.0f32).to_bits());
    assert_eq!((val(v.x), val(v.y)), (1.5, -2.0));
    assert_eq!(Vec2::from_array(v.to_bits()), v);
    assert_eq!(v.to_bits(), [1.5f32.to_bits(), (-2.0f32).to_bits()]);
    assert_eq!(v.neg(), Vec2::new(num(-1.5), num(2.0)));
    assert!(v.finite() && v.curve_size());
    assert!(!Vec2::new(num(0.0), num(f32::NAN)).finite());
    assert!(!Vec2::new(num(f32::INFINITY), num(0.0)).finite());
    assert!(Vec2::new(num(1.0e30), num(0.0)).finite());
    assert!(!Vec2::new(num(1.0e30), num(0.0)).curve_size());
}

#[test]
fn identity_matrix() {
    let m = Mat4::identity();
    for col in 0..4 {
        for row in 0..4 {
            assert_eq!(val(m.cols[col][row]), if col == row { 1.0 } else { 0.0 });
        }
    }
    assert_eq!(Mat4::from_cols(m.cols), m);
}

#[test]
fn rectangle_new_keeps_its_fields() {
    let r = Rectangle::new(num(1.0), num(2.0), num(3.0), num(4.0));
    assert_eq!((val(r.x), val(r.y), val(r.width), val(r.height)), (1.0, 2.0, 3.0, 4.0));
    assert_eq!(
        r.to_bits(),
        [1f32.to_bits(), 2f32.to_bits(), 3f32.to_bits(), 4f32.to_bits()]
    );
    let whole = Rectangle::new(1u8, 2u8, 3u8, 4u8);
    assert_eq!(whole.width, 3);
}

#[test]
fn draw_params_defaults() {
    let p = DrawParams::new();
    assert_eq!(p, DrawParams::default());
    assert_eq!((val(p.position.x), val(p.position.y)), (0.0, 0.0));
    assert_eq!((val(p.scale.x), val(p.scale.y)), (1.0, 1.0));
    assert_eq!((val(p.origin.x), val(p.origin.y)), (0.0, 0.0));
    assert_eq!(val(p.rotation), 0.0);
    assert_eq!(p.color, Color::white());
    assert_eq!(p.clip, None);
}

#[test]
fn draw_params_builder() {
    let red = Color::rgba(num(1.0), num(0.0), num(0.0), num(1.0));
    let clip = Rectangle::new(num(0.0), num(0.0), num(10.0), num(10.0));
    let p = DrawParams::new()
        .position(Vec2::new(num(3.0), num(4.0)))
        .scale(Vec2::new(num(2.0), num(2.0)))
        .origin(Vec2::new(num(8.0), num(-8.0)))
        .rotation(num(1.5))
        .color(red)
        .clip(clip);
    assert_eq!(p.position, Vec2::new(num(3.0), num(4.0)));
    assert_eq!(p.scale, Vec2::new(num(2.0), num(2.0)));
    assert_eq!(p.origin, Vec2::new(num(8.0), num(-8.0)));
    assert_eq!(val(p.rotation), 1.5);
    assert_eq!(p.color, red);
    assert_eq!(p.clip, Some(clip));
}

#[test]
fn a_position_converts_to_draw_params() {
    let position = Vec2::new(num(7.0), num(9.0));
    let p = DrawParams::from(position);
    assert_eq!(p, DrawParams::new().position(position));
    let q: DrawParams = position.into();
    assert_eq!(q, p);
}

#[test]
fn transform_takes_the_origin_away_first() {
    let p = DrawParams::new()
        .position(Vec2::new(num(3.0), num(4.0)))
        .scale(Vec2::new(num(2.0), num(0.5)))
        .origin(Vec2::new(num(8.0), num(-8.0)))
        .rotation(num(1.5));
    assert_eq!(
        p.to_transform(),
        Transform {
            pivot: Vec2::new(num(-8.0), num(8.0)),
            scale: Vec2::new(num(2.0), num(0.5)),
            rotation: num(1.5),
            position: Vec2::new(num(3.0), num(4.0)),
        }
    );
    let plain = DrawParams::new().to_transform();
    assert_eq!(plain.pivot, Vec2::new(num(-0.0), num(-0.0)));
}
