//! Items shared between the hotloaded shader library and the executable: the
//! selection enums that the GUI stores in presets and that both sides must
//! agree on. Each enum carries a stable index and a display name, pinned by
//! contract so that indices stored in a preset always round-trip.

use vstd::prelude::*;

verus! {

/// Refers to the selected blend mode type for a preset.
#[derive(Copy, Clone, Debug, PartialEq, Eq, Hash, Structural)]
pub enum BlendMode {
    Add,
    Subtract,
    Multiply,
    Average,
    Difference,
    Negation,
    Exclusion,
}

/// For selecting between each of the available shaders at runtime.
#[derive(Copy, Clone, Debug, PartialEq, Eq, Hash, Structural)]
pub enum Shader {
    SolidHsvColour,
    SolidRgbColour,
    ColourPalettes,
    AcidGradient,
    BlinkyCircles,
    BwGradient,
    ColourGrid,
    EscherTilings,
    GilmoreAcid,
    JustRelax,
    LifeLedWall,
    LineGradient,
    Metafall,
    ParticleZoom,
    RadialLines,
    SatisSpiraling,
    SpiralIntersect,
    SquareTunnel,
    ThePulse,
    TunnelProjection,
    VertColourGradient,
    MitchWash,
    ShapeEnvelopes,
    RowTest,
}

/// How many blend modes exist.
pub const BLEND_MODE_COUNT: usize = 7;

/// How many shaders exist.
pub const SHADER_COUNT: usize = 24;

impl BlendMode {
    /// The stable index of each blend mode.
    pub open spec fn index_spec(self) -> int {
        match self {
            BlendMode::Add => 0,
            BlendMode::Subtract => 1,
            BlendMode::Multiply => 2,
            BlendMode::Average => 3,
            BlendMode::Difference => 4,
            BlendMode::Negation => 5,
            BlendMode::Exclusion => 6,
        }
    }

    /// The display name of each blend mode.
    pub open spec fn name_spec(self) -> Seq<char> {
        match self {
            BlendMode::Add => "Add"@,
            BlendMode::Subtract => "Subtract"@,
            BlendMode::Multiply => "Multiply"@,
            BlendMode::Average => "Average"@,
            BlendMode::Difference => "Difference"@,
            BlendMode::Negation => "Negation"@,
            BlendMode::Exclusion => "Exclusion"@,
        }
    }

    /// The name of the variant in the form of a string for GUI presentation.
    pub fn name(&self) -> (name: &str)
        ensures
            name@ == self.name_spec(),
    {
        match *self {
            BlendMode::Add => "Add",
            BlendMode::Subtract => "Subtract",
            BlendMode::Multiply => "Multiply",
            BlendMode::Average => "Average",
            BlendMode::Difference => "Difference",
            BlendMode::Negation => "Negation",
            BlendMode::Exclusion => "Exclusion",
        }
    }

    /// The stable index of this blend mode, as stored in presets.
    pub fn to_index(&self) -> (index: usize)
        ensures
            index == self.index_spec(),
            index < BLEND_MODE_COUNT,
    {
        match *self {
            BlendMode::Add => 0,
            BlendMode::Subtract => 1,
            BlendMode::Multiply => 2,
            BlendMode::Average => 3,
            BlendMode::Difference => 4,
            BlendMode::Negation => 5,
            BlendMode::Exclusion => 6,
        }
    }

    /// The blend mode with the given stable index: every index below
    /// `BLEND_MODE_COUNT` maps back to exactly the mode that produced it, and
    /// every other index is rejected.
    pub fn from_index(index: usize) -> (mode: Option<Self>)
        ensures
            index < BLEND_MODE_COUNT ==> (mode matches Some(m) && m.index_spec() == index),
            index >= BLEND_MODE_COUNT ==> mode is None,
    {
        let mode = match index {
            0 => BlendMode::Add,
            1 => BlendMode::Subtract,
            2 => BlendMode::Multiply,
            3 => BlendMode::Average,
            4 => BlendMode::Difference,
            5 => BlendMode::Negation,
            6 => BlendMode::Exclusion,
            _ => {
                return None;
            },
        };
        Some(mode)
    }
}

impl Shader {
    /// The stable index of each shader.
    pub open spec fn index_spec(self) -> int {
        match self {
            Shader::SolidHsvColour => 0,
            Shader::SolidRgbColour => 1,
            Shader::ColourPalettes => 2,
            Shader::AcidGradient => 3,
            Shader::BlinkyCircles => 4,
            Shader::BwGradient => 5,
            Shader::ColourGrid => 6,
            Shader::EscherTilings => 7,
            Shader::GilmoreAcid => 8,
            Shader::JustRelax => 9,
            Shader::LifeLedWall => 10,
            Shader::LineGradient => 11,
            Shader::Metafall => 12,
            Shader::ParticleZoom => 13,
            Shader::RadialLines => 14,
            Shader::SatisSpiraling => 15,
            Shader::SpiralIntersect => 16,
            Shader::SquareTunnel => 17,
            Shader::ThePulse => 18,
            Shader::TunnelProjection => 19,
            Shader::VertColourGradient => 20,
            Shader::MitchWash => 21,
            Shader::ShapeEnvelopes => 22,
            Shader::RowTest => 23,
        }
    }

    /// The display name of each shader.
    pub open spec fn name_spec(self) -> Seq<char> {
        match self {
            Shader::SolidHsvColour => "SolidHsvColour"@,
            Shader::SolidRgbColour => "SolidRgbColour"@,
            Shader::ColourPalettes => "ColourPalettes"@,
            Shader::AcidGradient => "AcidGradient"@,
            Shader::BlinkyCircles => "BlinkyCircles"@,
            Shader::BwGradient => "BwGradient"@,
            Shader::ColourGrid => "ColourGrid"@,
            Shader::EscherTilings => "EscherTilings"@,
            Shader::GilmoreAcid => "GilmoreAcid"@,
            Shader::JustRelax => "JustRelax"@,
            Shader::LifeLedWall => "LifeLedWall"@,
            Shader::LineGradient => "LineGradient"@,
            Shader::Metafall => "Metafall"@,
            Shader::ParticleZoom => "ParticleZoom"@,
            Shader::RadialLines => "RadialLines"@,
            Shader::SatisSpiraling => "SatisSpiraling"@,
            Shader::SpiralIntersect => "SpiralIntersect"@,
            Shader::SquareTunnel => "SquareTunnel"@,
            Shader::ThePulse => "ThePulse"@,
            Shader::TunnelProjection => "TunnelProjection"@,
            Shader::VertColourGradient => "VertColourGradient"@,
            Shader::MitchWash => "MitchWash"@,
            Shader::ShapeEnvelopes => "ShapeEnvelopes"@,
            Shader::RowTest => "RowTest"@,
        }
    }

    /// The name of the variant in the form of a string for GUI presentation.
    pub fn name(&self) -> (name: &str)
        ensures
            name@ == self.name_spec(),
    {
        match *self {
            Shader::SolidHsvColour => "SolidHsvColour",
            Shader::SolidRgbColour => "SolidRgbColour",
            Shader::ColourPalettes => "ColourPalettes",
            Shader::AcidGradient => "AcidGradient",
            Shader::BlinkyCircles => "BlinkyCircles",
            Shader::BwGradient => "BwGradient",
            Shader::ColourGrid => "ColourGrid",
            Shader::EscherTilings => "EscherTilings",
            Shader::GilmoreAcid => "GilmoreAcid",
            Shader::JustRelax => "JustRelax",
            Shader::LifeLedWall => "LifeLedWall",
            Shader::LineGradient => "LineGradient",
            Shader::Metafall => "Metafall",
            Shader::ParticleZoom => "ParticleZoom",
            Shader::RadialLines => "RadialLines",
            Shader::SatisSpiraling => "SatisSpiraling",
            Shader::SpiralIntersect => "SpiralIntersect",
            Shader::SquareTunnel => "SquareTunnel",
            Shader::ThePulse => "ThePulse",
            Shader::TunnelProjection => "TunnelProjection",
            Shader::VertColourGradient => "VertColourGradient",
            Shader::MitchWash => "MitchWash",
            Shader::ShapeEnvelopes => "ShapeEnvelopes",
            Shader::RowTest => "RowTest",
        }
    }

    /// The stable index of this shader, as stored in presets.
    pub fn to_index(&self) -> (index: usize)
        ensures
            index == self.index_spec(),
            index < SHADER_COUNT,
    {
        match *self {
            Shader::SolidHsvColour => 0,
            Shader::SolidRgbColour => 1,
            Shader::ColourPalettes => 2,
            Shader::AcidGradient => 3,
            Shader::BlinkyCircles => 4,
            Shader::BwGradient => 5,
            Shader::ColourGrid => 6,
            Shader::EscherTilings => 7,
            Shader::GilmoreAcid => 8,
            Shader::JustRelax => 9,
            Shader::LifeLedWall => 10,
            Shader::LineGradient => 11,
            Shader::Metafall => 12,
            Shader::ParticleZoom => 13,
            Shader::RadialLines => 14,
            Shader::SatisSpiraling => 15,
            Shader::SpiralIntersect => 16,
            Shader::SquareTunnel => 17,
            Shader::ThePulse => 18,
            Shader::TunnelProjection => 19,
            Shader::VertColourGradient => 20,
            Shader::MitchWash => 21,
            Shader::ShapeEnvelopes => 22,
            Shader::RowTest => 23,
        }
    }

    /// The shader with the given stable index: every index below
    /// `SHADER_COUNT` maps back to exactly the shader that produced it, and
    /// every other index is rejected.
    pub fn from_index(index: usize) -> (shader: Option<Self>)
        ensures
            index < SHADER_COUNT ==> (shader matches Some(s) && s.index_spec() == index),
            index >= SHADER_COUNT ==> shader is None,
    {
        let shader = match index {
            0 => Shader::SolidHsvColour,
            1 => Shader::SolidRgbColour,
            2 => Shader::ColourPalettes,
            3 => Shader::AcidGradient,
            4 => Shader::BlinkyCircles,
            5 => Shader::BwGradient,
            6 => Shader::ColourGrid,
            7 => Shader::EscherTilings,
            8 => Shader::GilmoreAcid,
            9 => Shader::JustRelax,
            10 => Shader::LifeLedWall,
            11 => Shader::LineGradient,
            12 => Shader::Metafall,
            13 => Shader::ParticleZoom,
            14 => Shader::RadialLines,
            15 => Shader::SatisSpiraling,
            16 => Shader::SpiralIntersect,
            17 => Shader::SquareTunnel,
            18 => Shader::ThePulse,
            19 => Shader::TunnelProjection,
            20 => Shader::VertColourGradient,
            21 => Shader::MitchWash,
            22 => Shader::ShapeEnvelopes,
            23 => Shader::RowTest,
            _ => {
                return None;
            },
        };
        Some(shader)
    }
}

/// The blend mode index is a bijection onto `0..BLEND_MODE_COUNT`: every mode
/// has an in-range index and no two modes share one, so converting a mode to
/// its index and back always yields the same mode.
pub proof fn lemma_blend_mode_index_injective(a: BlendMode, b: BlendMode)
    requires
        a.index_spec() == b.index_spec(),
    ensures
        a == b,
        0 <= a.index_spec() < BLEND_MODE_COUNT,
{
}

/// The shader index is a bijection onto `0..SHADER_COUNT`: every shader has an
/// in-range index and no two shaders share one, so converting a shader to its
/// index and back always yields the same shader.
pub proof fn lemma_shader_index_injective(a: Shader, b: Shader)
    requires
        a.index_spec() == b.index_spec(),
    ensures
        a == b,
        0 <= a.index_spec() < SHADER_COUNT,
{
}

} // verus!
