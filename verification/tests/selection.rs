//! The selection enums round-trip through their stable indices and report
//! their display names.

use cohen_gig::shader_shared::{BlendMode, Shader, BLEND_MODE_COUNT, SHADER_COUNT};

#[test]
fn blend_mode_indices_round_trip() {
    for i in 0..BLEND_MODE_COUNT {
        let mode = BlendMode::from_index(i).expect("index below the count maps to a mode");
        assert_eq!(mode.to_index(), i);
    }
    assert_eq!(BlendMode::from_index(BLEND_MODE_COUNT), None);
    assert_eq!(BlendMode::from_index(usize::MAX), None);
}

#[test]
fn shader_indices_round_trip() {
    for i in 0..SHADER_COUNT {
        let shader = Shader::from_index(i).expect("index below the count maps to a shader");
        assert_eq!(shader.to_index(), i);
    }
    assert_eq!(Shader::from_index(SHADER_COUNT), None);
    assert_eq!(Shader::from_index(9999), None);
}

#[test]
fn blend_mode_names_match_variants() {
    assert_eq!(BlendMode::Add.name(), "Add");
    assert_eq!(BlendMode::Subtract.name(), "Subtract");
    assert_eq!(BlendMode::Multiply.name(), "Multiply");
    assert_eq!(BlendMode::Average.name(), "Average");
    assert_eq!(BlendMode::Difference.name(), "Difference");
    assert_eq!(BlendMode::Negation.name(), "Negation");
    assert_eq!(BlendMode::Exclusion.name(), "Exclusion");
}

#[test]
fn shader_names_match_variants() {
    assert_eq!(Shader::SolidHsvColour.name(), "SolidHsvColour");
    assert_eq!(Shader::SolidHsvColour.to_index(), 0);
    assert_eq!(Shader::AcidGradient.name(), "AcidGradient");
    assert_eq!(Shader::SatisSpiraling.to_index(), 15);
    assert_eq!(Shader::SatisSpiraling.name(), "SatisSpiraling");
    assert_eq!(Shader::RowTest.to_index(), 23);
    assert_eq!(Shader::RowTest.name(), "RowTest");
}

#[test]
fn distinct_shaders_have_distinct_indices() {
    let mut seen = [false; SHADER_COUNT];
    for i in 0..SHADER_COUNT {
        let idx = Shader::from_index(i).unwrap().to_index();
        assert!(!seen[idx]);
        seen[idx] = true;
    }
    assert!(seen.iter().all(|s| *s));
}
