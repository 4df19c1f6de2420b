//! The configuration of the pipeline: multisampling and specialization
//! constants.

use vstd::prelude::*;
use crate::native::{sample_count_1, sample_count_2, sample_count_4, sample_count_8};

verus! {

/// How many samples per pixel the renderer takes.
#[derive(Clone, Copy, Debug, PartialEq, Eq, Structural)]
pub enum MsaaPreset {
    Off,
    X2,
    X4,
    X8,
}

impl MsaaPreset {
    /// The number of samples per pixel, which is also the bit of the
    /// sample count flag.
    pub open spec fn samples(self) -> u32 {
        match self {
            MsaaPreset::Off => 1,
            MsaaPreset::X2 => 2,
            MsaaPreset::X4 => 4,
            MsaaPreset::X8 => 8,
        }
    }

    /// The sample count flag of the preset, as raw bits.
    pub fn sample_count(self) -> (bits: u32)
        ensures
            bits == self.samples(),
    {
        match self {
            MsaaPreset::Off => sample_count_1(),
            MsaaPreset::X2 => sample_count_2(),
            MsaaPreset::X4 => sample_count_4(),
            MsaaPreset::X8 => sample_count_8(),
        }
    }
}

impl Default for MsaaPreset {
    /// No multisampling.
    fn default() -> (preset: MsaaPreset)
        ensures
            preset == MsaaPreset::Off,
    {
        MsaaPreset::Off
    }
}

/// A value for one specialization constant of one shader stage.
pub struct SpecializationOverride {
    stage: u32,
    constant_id: u32,
    data: Vec<u8>,
}

/// The mathematical content of a [`SpecializationOverride`].
pub struct OverrideView {
    /// The raw bits of the shader stage.
    pub stage: u32,
    pub constant_id: u32,
    /// The bytes of the value.
    pub data: Seq<u8>,
}

impl View for SpecializationOverride {
    type V = OverrideView;

    closed spec fn view(&self) -> OverrideView {
        OverrideView { stage: self.stage, constant_id: self.constant_id, data: self.data@ }
    }
}

impl SpecializationOverride {
    /// An override that gives the constant `constant_id` of the stage
    /// `stage` the value whose bytes are `bytes`.
    pub fn from_value(stage: u32, constant_id: u32, bytes: Vec<u8>) -> (value:
        SpecializationOverride)
        ensures
            value@ == (OverrideView { stage, constant_id, data: bytes@ }),
    {
        SpecializationOverride { stage, constant_id, data: bytes }
    }

    /// The raw bits of the shader stage.
    pub fn stage(&self) -> (stage: u32)
        ensures
            stage == self@.stage,
    {
        self.stage
    }

    /// The number of the constant.
    pub fn constant_id(&self) -> (id: u32)
        ensures
            id == self@.constant_id,
    {
        self.constant_id
    }

    /// The bytes of the value.
    pub fn bytes(&self) -> (bytes: &Vec<u8>)
        ensures
            bytes@ == self@.data,
    {
        &self.data
    }
}

/// How the pipeline is multisampled.
#[derive(Clone, Copy, Debug, PartialEq, Eq, Structural)]
pub struct MultisampleConfig {
    /// The sample count flag, as raw bits.
    pub sample_count: u32,
    pub enable_sample_shading: bool,
}

/// The configuration of the pipeline.
pub struct PipelineConfig {
    pub msaa: MsaaPreset,
    pub enable_sample_shading: bool,
    pub watch_shaders: bool,
    pub specialization_constants: Vec<SpecializationOverride>,
}

impl PipelineConfig {
    /// The multisampling that the configuration asks for.
    pub fn multisample_config(&self) -> (config: MultisampleConfig)
        ensures
            config == (MultisampleConfig {
                sample_count: self.msaa.samples(),
                enable_sample_shading: self.enable_sample_shading,
            }),
    {
        MultisampleConfig {
            sample_count: self.msaa.sample_count(),
            enable_sample_shading: self.enable_sample_shading,
        }
    }
}

impl Default for PipelineConfig {
    /// No multisampling, no sample shading, no shader watching, no
    /// specialization constants.
    fn default() -> (config: PipelineConfig)
        ensures
            config.msaa == MsaaPreset::Off,
            !config.enable_sample_shading,
            !config.watch_shaders,
            config.specialization_constants@.len() == 0,
    {
        PipelineConfig {
            msaa: MsaaPreset::Off,
            enable_sample_shading: false,
            watch_shaders: false,
            specialization_constants: Vec::new(),
        }
    }
}

/// The configuration of the renderer.
pub struct RendererConfig {
    pub pipeline: PipelineConfig,
}

impl Default for RendererConfig {
    /// The default pipeline configuration.
    fn default() -> (config: RendererConfig)
        ensures
            config.pipeline.msaa == MsaaPreset::Off,
            !config.pipeline.enable_sample_shading,
            !config.pipeline.watch_shaders,
            config.pipeline.specialization_constants@.len() == 0,
    {
        RendererConfig { pipeline: PipelineConfig::default() }
    }
}

} // verus!
