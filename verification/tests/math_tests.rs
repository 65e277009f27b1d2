use bevy_transform_interpolation::math::{
    clamp_to_unit, scalar_eq, scalar_lt, Quat, Transform, Vec3, INFINITY_BITS, MAGNITUDE_MASK,
    ONE_BITS, SIGN_BIT,
};

fn v(x: f32, y: f32, z: f32) -> Vec3 {
    Vec3::from_bits(x.to_bits(), y.to_bits(), z.to_bits())
}

fn q(x: f32, y: f32, z: f32, w: f32) -> Quat {
    Quat::from_bits(x.to_bits(), y.to_bits(), z.to_bits(), w.to_bits())
}

fn samples() -> Vec<f32> {
    vec![
        0.0f32,
        -0.0,
        1.0,
        -1.0,
        0.5,
        25.0,
        1.0e-40,
        -1.0e-40,
        f32::MIN_POSITIVE,
        f32::MAX,
        f32::MIN,
        f32::EPSILON,
        f32::INFINITY,
        f32::NEG_INFINITY,
        f32::NAN,
        -f32::NAN,
        f32::from_bits(0x7f80_0001),
        f32::from_bits(0xffff_ffff),
    ]
}

#[test]
fn constants_are_the_bit_patterns_they_name() {
    assert_eq!(ONE_BITS, 1.0f32.to_bits());
    assert_eq!(INFINITY_BITS, f32::INFINITY.to_bits());
    assert_eq!(MAGNITUDE_MASK, !(-0.0f32).to_bits());
    assert_eq!(SIGN_BIT, (-0.0f32).to_bits());
}

#[test]
fn scalar_order_agrees_with_numbers() {
    for a in samples() {
        for b in samples() {
            assert_eq!(scalar_lt(a.to_bits(), b.to_bits()), a < b, "{a:?} {b:?}");
        }
    }
}

#[test]
fn clamp_agrees_with_numbers() {
    let mut fractions = samples();
    fractions.extend([0.25f32, 0.999_999_94, 1.000_000_1, 2.0, -0.5, -1.0e-45, 1.0e-45, 0.75]);
    for t in fractions {
        let clamped = f32::from_bits(clamp_to_unit(t.to_bits()));
        let expected = t.clamp(0.0, 1.0);
        if t.is_nan() {
            assert!(clamped.is_nan());
            assert_eq!(clamped.to_bits(), t.to_bits());
        } else {
            assert_eq!(clamped.to_bits(), expected.to_bits(), "{t:?}");
            assert!((0.0..=1.0).contains(&clamped));
        }
    }
}

#[test]
fn clamp_holds_a_fraction_within_the_step() {
    assert_eq!(clamp_to_unit(0.5f32.to_bits()), 0.5f32.to_bits());
    assert_eq!(clamp_to_unit(0.0f32.to_bits()), 0.0f32.to_bits());
    assert_eq!(clamp_to_unit(1.0f32.to_bits()), 1.0f32.to_bits());
    assert_eq!(clamp_to_unit(1.5f32.to_bits()), 1.0f32.to_bits());
    assert_eq!(clamp_to_unit(f32::INFINITY.to_bits()), 1.0f32.to_bits());
    assert_eq!(clamp_to_unit((-0.25f32).to_bits()), 0.0f32.to_bits());
    assert_eq!(clamp_to_unit(f32::NEG_INFINITY.to_bits()), 0.0f32.to_bits());
}

#[test]
fn scalar_equality_agrees_with_numbers() {
    for a in samples() {
        for b in samples() {
            assert_eq!(scalar_eq(a.to_bits(), b.to_bits()), a == b, "{a:?} {b:?}");
        }
    }
}

#[test]
fn vector_equality_agrees_with_glam() {
    for a in samples() {
        for b in samples() {
            let ours = v(a, 1.0, 2.0) == v(b, 1.0, 2.0);
            let theirs = bevy::math::Vec3::new(a, 1.0, 2.0) == bevy::math::Vec3::new(b, 1.0, 2.0);
            assert_eq!(ours, theirs);
            let ours = v(1.0, 2.0, a) != v(1.0, 2.0, b);
            let theirs = bevy::math::Vec3::new(1.0, 2.0, a) != bevy::math::Vec3::new(1.0, 2.0, b);
            assert_eq!(ours, theirs);
        }
    }
}

#[test]
fn quaternion_equality_agrees_with_glam() {
    for a in samples() {
        for b in samples() {
            let ours = q(0.0, a, 0.0, 1.0) == q(0.0, b, 0.0, 1.0);
            let theirs = bevy::math::Quat::from_xyzw(0.0, a, 0.0, 1.0)
                == bevy::math::Quat::from_xyzw(0.0, b, 0.0, 1.0);
            assert_eq!(ours, theirs);
        }
    }
}

#[test]
fn vectors_compare_by_component() {
    assert!(v(0.0, 1.0, 2.0) == v(-0.0, 1.0, 2.0));
    assert!(v(0.0, 1.0, 2.0) != v(0.0, 1.0, 2.5));
    assert!(v(0.0, 1.0, 2.0) != v(0.5, 1.0, 2.0));
    assert!(v(0.0, 1.0, 2.0) != v(0.0, 1.5, 2.0));
    assert!(v(f32::NAN, 1.0, 2.0) != v(f32::NAN, 1.0, 2.0));
}

#[test]
fn named_values_are_what_they_say() {
    assert!(Vec3::zero() == v(0.0, 0.0, 0.0));
    assert!(Vec3::one() == v(1.0, 1.0, 1.0));
    assert!(Quat::identity() == q(0.0, 0.0, 0.0, 1.0));
    let identity = Transform::identity();
    assert!(identity.translation == v(0.0, 0.0, 0.0));
    assert!(identity.rotation == q(0.0, 0.0, 0.0, 1.0));
    assert!(identity.scale == v(1.0, 1.0, 1.0));
    let moved = Transform::from_translation(v(1.0, 2.0, 3.0));
    assert!(moved.translation == v(1.0, 2.0, 3.0));
    assert!(moved.rotation == Quat::identity());
    assert!(moved.scale == Vec3::one());
    let glam = bevy::math::Quat::IDENTITY;
    assert_eq!(Quat::identity().w, glam.w.to_bits());
    assert_eq!(Quat::identity().x, glam.x.to_bits());
}

#[test]
fn quaternion_is_not_its_negation() {
    let rotation = q(0.0, 0.0, 0.0, 1.0);
    let negated = q(-0.0, -0.0, -0.0, -1.0);
    assert!(rotation != negated);
    assert!(rotation == Quat::identity());
}

#[test]
fn from_bits_keeps_every_component() {
    let vector = Vec3::from_bits(1, 2, 3);
    assert_eq!((vector.x, vector.y, vector.z), (1, 2, 3));
    let rotation = Quat::from_bits(4, 5, 6, 7);
    assert_eq!((rotation.x, rotation.y, rotation.z, rotation.w), (4, 5, 6, 7));
}
