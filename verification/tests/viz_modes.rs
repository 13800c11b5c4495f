use firmium::viz_modes::{
    BarsGradientMode, BarsGradientOrientation, BarsPeakGradientMode, BarsPeakMode, GradientMode, LineStyle,
};

#[test]
fn shader_numbers_follow_declaration_order() {
    for (i, m) in GradientMode::ALL.iter().enumerate() {
        assert_eq!(m.as_u32(), i as u32);
    }
    for (i, m) in BarsPeakMode::ALL.iter().enumerate() {
        assert_eq!(m.as_u32(), i as u32);
    }
    for (i, m) in BarsPeakGradientMode::ALL.iter().enumerate() {
        assert_eq!(m.as_u32(), i as u32);
    }
    assert_eq!(LineStyle::Angular.as_u32(), 1);
    assert_eq!(BarsGradientMode::Wave.as_u32(), 1);
    assert_eq!(BarsGradientOrientation::Horizontal.as_u32(), 1);
    assert_eq!(BarsPeakMode::Fall.as_u32(), 2);
}

#[test]
fn settings_labels() {
    assert_eq!(BarsPeakMode::Off.label(), "None");
    assert_eq!(BarsPeakMode::FallAccel.label(), "Fall (accelerate)");
    assert_eq!(BarsPeakMode::FallFade.label(), "Fall + fade");
    assert_eq!(GradientMode::Breathing.label(), "Breathing");
    assert_eq!(LineStyle::Smooth.label(), "Smooth");
    assert_eq!(BarsGradientOrientation::Vertical.label(), "Vertical");
    assert_eq!(BarsPeakGradientMode::Match.label(), "Match");
    assert_eq!(BarsGradientMode::Static.label(), "Static");
}
