//! Rendering options of the particle emitters.
use vstd::prelude::*;

verus! {

/// How particles are blended with what is behind them.
#[derive(Debug, Clone, Copy, PartialEq, Eq, Structural)]
pub enum ParticleBlendMode {
    Additive,
    Alpha,
}

/// The sprite shape a particle is drawn with.
#[derive(Debug, Clone, Copy, PartialEq, Eq, Structural)]
pub enum ParticleRenderType {
    GlowCircle,
    Spark,
    Flame,
    Smoke,
    Star,
}

/// The number by which the particle shader selects a sprite shape.
pub open spec fn render_type_index(render_type: ParticleRenderType) -> u32 {
    match render_type {
        ParticleRenderType::GlowCircle => 0,
        ParticleRenderType::Spark => 1,
        ParticleRenderType::Flame => 2,
        ParticleRenderType::Smoke => 3,
        ParticleRenderType::Star => 4,
    }
}

impl ParticleRenderType {
    /// The number by which the particle shader selects this shape.
    pub fn shader_index(&self) -> (res: u32)
        ensures
            res == render_type_index(*self),
    {
        match self {
            ParticleRenderType::GlowCircle => 0,
            ParticleRenderType::Spark => 1,
            ParticleRenderType::Flame => 2,
            ParticleRenderType::Smoke => 3,
            ParticleRenderType::Star => 4,
        }
    }
}

/// Distinct shapes reach the shader as distinct numbers.
pub proof fn lemma_shader_index_distinct(a: ParticleRenderType, b: ParticleRenderType)
    ensures
        render_type_index(a) == render_type_index(b) ==> a == b,
        render_type_index(a) < 5,
{
}

/// The shape chosen by entry `index` of the style list in the editor
/// (the list order is the shader order); unknown entries give a glow circle.
pub open spec fn render_type_from_index(index: u32) -> ParticleRenderType {
    if index == 1 {
        ParticleRenderType::Spark
    } else if index == 2 {
        ParticleRenderType::Flame
    } else if index == 3 {
        ParticleRenderType::Smoke
    } else if index == 4 {
        ParticleRenderType::Star
    } else {
        ParticleRenderType::GlowCircle
    }
}

/// The name of each shape in the editor's style list.
pub open spec fn render_type_label(render_type: ParticleRenderType) -> Seq<char> {
    match render_type {
        ParticleRenderType::GlowCircle => "Glow Circle"@,
        ParticleRenderType::Spark => "Spark/Flare"@,
        ParticleRenderType::Flame => "Flame"@,
        ParticleRenderType::Smoke => "Smoke/Cloud"@,
        ParticleRenderType::Star => "Star"@,
    }
}

impl ParticleRenderType {
    /// The shape of entry `index` of the editor's style list.
    pub fn from_index(index: u32) -> (res: ParticleRenderType)
        ensures
            res == render_type_from_index(index),
    {
        match index {
            1 => ParticleRenderType::Spark,
            2 => ParticleRenderType::Flame,
            3 => ParticleRenderType::Smoke,
            4 => ParticleRenderType::Star,
            _ => ParticleRenderType::GlowCircle,
        }
    }

    /// The name shown for this shape in the editor.
    pub fn label(&self) -> (res: &'static str)
        ensures
            res@ == render_type_label(*self),
    {
        match self {
            ParticleRenderType::GlowCircle => "Glow Circle",
            ParticleRenderType::Spark => "Spark/Flare",
            ParticleRenderType::Flame => "Flame",
            ParticleRenderType::Smoke => "Smoke/Cloud",
            ParticleRenderType::Star => "Star",
        }
    }
}

/// Choosing a shape in the editor by its index gives back that shape.
pub proof fn lemma_render_type_index_round_trip(render_type: ParticleRenderType)
    ensures
        render_type_from_index(render_type_index(render_type)) == render_type,
{
}

/// The index of each blend mode in the editor (additive first).
pub open spec fn blend_mode_index(mode: ParticleBlendMode) -> u32 {
    match mode {
        ParticleBlendMode::Additive => 0,
        ParticleBlendMode::Alpha => 1,
    }
}

impl ParticleBlendMode {
    /// The index of this blend mode in the editor.
    pub fn index(&self) -> (res: u32)
        ensures
            res == blend_mode_index(*self),
    {
        match self {
            ParticleBlendMode::Additive => 0,
            ParticleBlendMode::Alpha => 1,
        }
    }
}

} // verus!
