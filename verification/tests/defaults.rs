use sunflower::flower::SeedSettings;
use sunflower::layout::{Color, ShapeKind};
use sunflower::scalar::Scalar;
use sunflower::ui::{is_step_size, FlowerMode, RotationPreset, UiState};

fn number(scalar: Scalar) -> f32 {
    f32::from_bits(scalar.to_bits())
}

#[test]
fn scalar_keeps_its_bits() {
    for value in [0.0f32, -0.0, 1.0, 0.618034, -7.25, f32::INFINITY, f32::MIN_POSITIVE] {
        let scalar = Scalar::from_bits(value.to_bits());
        assert_eq!(scalar.bits, value.to_bits());
        assert_eq!(scalar.to_bits(), value.to_bits());
        assert_eq!(number(scalar), value);
    }
    let nan = Scalar::from_bits(f32::NAN.to_bits());
    assert!(number(nan).is_nan());
    assert_eq!(nan, nan);
    assert_ne!(Scalar::from_bits(0.0f32.to_bits()), Scalar::from_bits((-0.0f32).to_bits()));
}

#[test]
fn green_is_css_green() {
    let green = Color::green();
    assert_eq!(number(green.red), 0.0);
    assert_eq!(number(green.green), 0.5019608);
    assert_eq!(number(green.green), 128.0 / 255.0);
    assert_eq!(number(green.blue), 0.0);
    assert_eq!(number(green.alpha), 1.0);
}

#[test]
fn seed_defaults() {
    let settings = SeedSettings::default();
    let phi: f32 = 1.618034;
    assert_eq!(number(settings.rotation), phi.fract());
    assert!((number(settings.rotation) - 0.618034).abs() < 1e-6);
    assert_eq!(settings.rotation.bits, 0x3F1E_377A);
    assert_eq!(number(settings.distance), 20.0);
    assert_eq!(number(settings.radius), 10.0);
    assert_eq!(settings.amount, 100);
    assert_eq!(settings.color, Color::green());
    assert_eq!(settings.material_handle, None);
    assert_eq!(settings.mesh_handle, None);
}

#[test]
fn petal_defaults() {
    let settings = SeedSettings::default_petal();
    assert_eq!(number(settings.rotation), 0.0);
    assert_eq!(settings.rotation.bits, 0);
    assert_eq!(number(settings.distance), 50.0);
    assert_eq!(number(settings.radius), 4.0);
    assert_eq!(settings.amount, 1);
    assert_eq!(settings.color, Color::green());
    assert_eq!(settings.material_handle, None);
    assert_eq!(settings.mesh_handle, None);
}

#[test]
fn defaults_by_mode() {
    assert_eq!(SeedSettings::for_mode(FlowerMode::Seed), SeedSettings::default());
    assert_eq!(SeedSettings::for_mode(FlowerMode::Petal), SeedSettings::default_petal());
    assert_ne!(SeedSettings::default(), SeedSettings::default_petal());
}

#[test]
fn panel_opens_on_seeds_without_animation() {
    let ui = UiState::default();
    assert_eq!(ui.fraction_content, "");
    assert_eq!(number(ui.step_size), 0.0025);
    assert!(!ui.animate);
    assert_eq!(ui.flower_mode, FlowerMode::Seed);
}

#[test]
fn caps_by_mode() {
    assert_eq!(FlowerMode::Seed.max_amount(), 500);
    assert_eq!(FlowerMode::Petal.max_amount(), 40);
    assert_eq!(number(FlowerMode::Seed.max_density()), 30.0);
    assert_eq!(number(FlowerMode::Petal.max_density()), 100.0);
}

#[test]
fn presets_are_fractional_parts() {
    let phi: f32 = 1.618034;
    assert_eq!(number(RotationPreset::Phi.fraction()), phi.fract());
    assert_eq!(number(RotationPreset::Pi.fraction()), std::f32::consts::PI.fract());
    assert_eq!(number(RotationPreset::E.fraction()), std::f32::consts::E.fract());
    assert!((number(RotationPreset::Pi.fraction()) - 0.14159265).abs() < 1e-6);
    assert!((number(RotationPreset::E.fraction()) - 0.71828183).abs() < 1e-6);
}

#[test]
fn semi_axes_in_tenths() {
    assert_eq!(ShapeKind::Circle.half_width_tenths(), 10);
    assert_eq!(ShapeKind::Circle.half_height_tenths(), 10);
    assert_eq!(ShapeKind::InnerEllipse.half_width_tenths(), 50);
    assert_eq!(ShapeKind::InnerEllipse.half_height_tenths(), 100);
    assert_eq!(ShapeKind::OuterEllipse.half_width_tenths(), 51);
    assert_eq!(ShapeKind::OuterEllipse.half_height_tenths(), 101);
    let radius: f32 = 4.0;
    let tenths = |count: u32| count as f32 / 10.0;
    assert_eq!(tenths(ShapeKind::Circle.half_width_tenths()) * radius, radius);
    assert_eq!(tenths(ShapeKind::InnerEllipse.half_width_tenths()) * radius, 5.0 * radius);
    assert_eq!(tenths(ShapeKind::InnerEllipse.half_height_tenths()) * radius, 10.0 * radius);
    assert_eq!(tenths(ShapeKind::OuterEllipse.half_width_tenths()) * radius, 5.1 * radius);
    assert_eq!(tenths(ShapeKind::OuterEllipse.half_height_tenths()) * radius, 10.1 * radius);
}

#[test]
fn step_sizes_run_from_zero_to_a_tenth() {
    let offered = |value: f32| is_step_size(Scalar::from_bits(value.to_bits()));
    assert!(offered(0.0));
    assert!(offered(f32::MIN_POSITIVE));
    assert!(offered(1e-40));
    assert!(offered(0.0025));
    assert!(offered(0.05));
    assert!(offered(0.1));
    assert!(!offered(0.10000001));
    assert!(!offered(0.2));
    assert!(!offered(1.0));
    assert!(!offered(f32::MAX));
    assert!(!offered(f32::INFINITY));
    assert!(!offered(f32::NAN));
    assert!(!offered(-0.0));
    assert!(!offered(-0.05));
    assert!(!offered(-1e-40));
    assert!(!offered(f32::NEG_INFINITY));
    assert!(!offered(-f32::NAN));
}
