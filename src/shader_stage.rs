//! Shader stages of a graphics pipeline and the table that keeps at most one
//! stage of each kind.
use vstd::prelude::*;
use crate::handle::ShaderModule;
use rustc_hash::FxHashMap;
use std::sync::Arc;

verus! {

/// The number of stage kinds a pipeline may hold.
pub const STAGE_KIND_COUNT: usize = 6;

/// The kind of a shader stage.
#[derive(Clone, Copy, Debug, PartialEq, Eq, Structural)]
pub enum ShaderStage {
    Vertex,
    TessellationControl,
    TessellationEvaluation,
    Geometry,
    Fragment,
    Compute,
}

/// The native flag bit of each stage kind.
pub open spec fn stage_bits(s: ShaderStage) -> u32 {
    match s {
        ShaderStage::Vertex => 0x1,
        ShaderStage::TessellationControl => 0x2,
        ShaderStage::TessellationEvaluation => 0x4,
        ShaderStage::Geometry => 0x8,
        ShaderStage::Fragment => 0x10,
        ShaderStage::Compute => 0x20,
    }
}

/// The stage kinds in pipeline order.
pub open spec fn stage_at(i: int) -> ShaderStage {
    if i == 0 {
        ShaderStage::Vertex
    } else if i == 1 {
        ShaderStage::TessellationControl
    } else if i == 2 {
        ShaderStage::TessellationEvaluation
    } else if i == 3 {
        ShaderStage::Geometry
    } else if i == 4 {
        ShaderStage::Fragment
    } else {
        ShaderStage::Compute
    }
}

impl ShaderStage {
    /// The native flag bit of this stage kind.
    pub fn bits(&self) -> (r: u32)
        ensures
            r == stage_bits(*self),
    {
        match self {
            ShaderStage::Vertex => 0x1,
            ShaderStage::TessellationControl => 0x2,
            ShaderStage::TessellationEvaluation => 0x4,
            ShaderStage::Geometry => 0x8,
            ShaderStage::Fragment => 0x10,
            ShaderStage::Compute => 0x20,
        }
    }

    /// The stage kind at position `i` of pipeline order.
    pub fn at(i: usize) -> (r: ShaderStage)
        requires
            i < STAGE_KIND_COUNT,
        ensures
            r == stage_at(i as int),
    {
        if i == 0 {
            ShaderStage::Vertex
        } else if i == 1 {
            ShaderStage::TessellationControl
        } else if i == 2 {
            ShaderStage::TessellationEvaluation
        } else if i == 3 {
            ShaderStage::Geometry
        } else if i == 4 {
            ShaderStage::Fragment
        } else {
            ShaderStage::Compute
        }
    }
}

/// Each stage kind is at exactly one position of pipeline order.
pub proof fn lemma_stage_order_complete(s: ShaderStage)
    ensures
        exists|i: int| 0 <= i < STAGE_KIND_COUNT && stage_at(i) == s,
        forall|i: int, j: int|
            0 <= i < STAGE_KIND_COUNT && 0 <= j < STAGE_KIND_COUNT && i != j ==> stage_bits(
                stage_at(i),
            ) != stage_bits(stage_at(j)),
{
    match s {
        ShaderStage::Vertex => assert(stage_at(0) == s),
        ShaderStage::TessellationControl => assert(stage_at(1) == s),
        ShaderStage::TessellationEvaluation => assert(stage_at(2) == s),
        ShaderStage::Geometry => assert(stage_at(3) == s),
        ShaderStage::Fragment => assert(stage_at(4) == s),
        ShaderStage::Compute => assert(stage_at(5) == s),
    }
}

/// One shader stage of a pipeline: its kind, its module and its entry point.
#[derive(Clone, Debug)]
pub struct PipelineShaderStageCreateInfo {
    pub stage: ShaderStage,
    pub module: Arc<ShaderModule>,
    pub name: String,
}

impl PipelineShaderStageCreateInfo {
    pub fn new(stage: ShaderStage, module: Arc<ShaderModule>, name: String) -> (r:
        PipelineShaderStageCreateInfo)
        ensures
            r.stage == stage,
            r.module == module,
            r.name == name,
    {
        PipelineShaderStageCreateInfo { stage, module, name }
    }
}

/// The stages registered so far, keyed by their stage bits.
#[verifier::external_body]
pub struct StageTable {
    map: FxHashMap<u32, PipelineShaderStageCreateInfo>,
}

/// What a stage table holds.
pub uninterp spec fn stage_entries(t: StageTable) -> Map<u32, PipelineShaderStageCreateInfo>;

impl StageTable {
    /// Relies on `FxHashMap::default` (std's `HashMap` with rustc_hash's
    /// hasher): the map starts empty.
    #[verifier::external_body]
    pub(crate) fn new() -> (r: StageTable)
        ensures
            stage_entries(r).dom().len() == 0 && stage_entries(r).dom().finite(),
    {
        StageTable { map: FxHashMap::default() }
    }

    /// Relies on `HashMap::contains_key`: whether `key` has an entry.
    #[verifier::external_body]
    pub(crate) fn contains(&self, key: u32) -> (r: bool)
        ensures
            r == stage_entries(*self).contains_key(key),
    {
        self.map.contains_key(&key)
    }

    /// Relies on `HashMap::insert`: `key` maps to `info` afterwards, and the
    /// entry it replaced, if any, is returned.
    #[verifier::external_body]
    pub(crate) fn insert(&mut self, key: u32, info: PipelineShaderStageCreateInfo) -> (r: Option<
        PipelineShaderStageCreateInfo,
    >)
        ensures
            stage_entries(*final(self)) == stage_entries(*old(self)).insert(key, info),
            r == (if stage_entries(*old(self)).contains_key(key) {
                Some(stage_entries(*old(self))[key])
            } else {
                None
            }),
    {
        self.map.insert(key, info)
    }

    /// Relies on `HashMap::remove`: `key` has no entry afterwards, and the
    /// entry it had, if any, is returned.
    #[verifier::external_body]
    pub(crate) fn remove(&mut self, key: u32) -> (r: Option<PipelineShaderStageCreateInfo>)
        ensures
            stage_entries(*final(self)) == stage_entries(*old(self)).remove(key),
            r == (if stage_entries(*old(self)).contains_key(key) {
                Some(stage_entries(*old(self))[key])
            } else {
                None
            }),
    {
        self.map.remove(&key)
    }
}

} // verus!
