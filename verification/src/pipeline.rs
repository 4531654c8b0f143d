//! The set of render pipelines, built once from precompiled shader binaries.

use vstd::prelude::*;
use vstd::string::StringSliceAdditionalSpecFns;
use crate::context::GraphicsContext;
use crate::surface::PixelFormat;
use crate::vertex::VertexLayout;

verus! {

/// The pipelines that exist side by side.
#[derive(Clone, Copy, Debug, PartialEq, Eq, Structural)]
pub enum PipelineKey {
    Default,
    Alternate,
}

/// The pipeline that a frame uses, by the state of the toggle.
pub open spec fn selected(alternate: bool) -> PipelineKey {
    if alternate {
        PipelineKey::Alternate
    } else {
        PipelineKey::Default
    }
}

impl PipelineKey {
    /// The pipeline that a frame uses, by the state of the toggle.
    pub fn select(alternate: bool) -> (key: PipelineKey)
        ensures
            key == selected(alternate),
    {
        if alternate {
            PipelineKey::Alternate
        } else {
            PipelineKey::Default
        }
    }
}

/// The stage that a shader binary was compiled for.
#[derive(Clone, Copy, Debug, PartialEq, Eq, Structural)]
pub enum StageKind {
    Vertex,
    Fragment,
    Compute,
}

/// The stage that a shader source is compiled for, by the bytes of its file
/// extension: `vert`, `frag` or `comp`. Any other extension names no stage.
pub open spec fn stage_of_extension(extension: Seq<u8>) -> Option<StageKind> {
    if extension == seq![0x76u8, 0x65u8, 0x72u8, 0x74u8] {
        Some(StageKind::Vertex)
    } else if extension == seq![0x66u8, 0x72u8, 0x61u8, 0x67u8] {
        Some(StageKind::Fragment)
    } else if extension == seq![0x63u8, 0x6fu8, 0x6du8, 0x70u8] {
        Some(StageKind::Compute)
    } else {
        None
    }
}

impl StageKind {
    /// The stage that a shader source is compiled for, by its file extension.
    /// Whoever compiles shaders has to fail on `None`.
    pub fn from_extension(extension: &str) -> (kind: Option<StageKind>)
        ensures
            kind == stage_of_extension(extension.spec_bytes()),
    {
        let bytes = extension.as_bytes();
        if bytes.len() != 4 {
            return None;
        }
        let kind = if bytes[0] == 0x76 && bytes[1] == 0x65 && bytes[2] == 0x72 && bytes[3] == 0x74 {
            Some(StageKind::Vertex)
        } else if bytes[0] == 0x66 && bytes[1] == 0x72 && bytes[2] == 0x61 && bytes[3] == 0x67 {
            Some(StageKind::Fragment)
        } else if bytes[0] == 0x63 && bytes[1] == 0x6f && bytes[2] == 0x6d && bytes[3] == 0x70 {
            Some(StageKind::Compute)
        } else {
            None
        };
        proof {
            let given = extension.spec_bytes();
            if kind is Some {
                assert(given =~= match kind->Some_0 {
                    StageKind::Vertex => seq![0x76u8, 0x65u8, 0x72u8, 0x74u8],
                    StageKind::Fragment => seq![0x66u8, 0x72u8, 0x61u8, 0x67u8],
                    StageKind::Compute => seq![0x63u8, 0x6fu8, 0x6du8, 0x70u8],
                });
            }
        }
        kind
    }
}

/// A precompiled shader module: an opaque blob, keyed by the pipeline it
/// belongs to and by its stage.
#[derive(Clone, Debug)]
pub struct ShaderBinary {
    pub pipeline: PipelineKey,
    pub stage: StageKind,
    pub bytes: Vec<u8>,
}

impl ShaderBinary {
    /// The binary is the one for the given pipeline and stage.
    pub open spec fn serves(&self, key: PipelineKey, stage: StageKind) -> bool {
        self.pipeline == key && self.stage == stage
    }
}

/// Whether the bytes are framed as a binary shader module: a whole number of
/// 32-bit words, the first of them the magic number `0x07230203`, low byte
/// first. Nothing behind the first word is looked at.
pub open spec fn is_framed(bytes: Seq<u8>) -> bool {
    &&& bytes.len() >= 4
    &&& bytes.len() % 4 == 0
    &&& bytes[0] == 0x03
    &&& bytes[1] == 0x02
    &&& bytes[2] == 0x23
    &&& bytes[3] == 0x07
}

/// Whether the bytes are framed as a binary shader module.
pub fn check_framing(bytes: &Vec<u8>) -> (yes: bool)
    ensures
        yes == is_framed(bytes@),
{
    let n = bytes.len();
    n >= 4 && n % 4 == 0 && bytes[0] == 0x03 && bytes[1] == 0x02 && bytes[2] == 0x23 && bytes[3]
        == 0x07
}

/// The index of the first binary at or behind `from` that serves the given
/// pipeline and stage.
pub open spec fn stage_index_from(
    binaries: Seq<ShaderBinary>,
    key: PipelineKey,
    stage: StageKind,
    from: int,
) -> Option<int>
    decreases binaries.len() - from,
{
    if from < 0 || from >= binaries.len() {
        None
    } else if binaries[from].serves(key, stage) {
        Some(from)
    } else {
        stage_index_from(binaries, key, stage, from + 1)
    }
}

/// The index of the first binary that serves the given pipeline and stage.
pub open spec fn stage_index(binaries: Seq<ShaderBinary>, key: PipelineKey, stage: StageKind)
    -> Option<int> {
    stage_index_from(binaries, key, stage, 0)
}

/// What `stage_index` finds is the least index of a binary for the pipeline and
/// stage, and it finds nothing only where no binary serves them.
pub proof fn lemma_stage_index_is_first(
    binaries: Seq<ShaderBinary>,
    key: PipelineKey,
    stage: StageKind,
    from: int,
)
    requires
        0 <= from,
    ensures
        match stage_index_from(binaries, key, stage, from) {
            Some(found) => {
                &&& from <= found < binaries.len()
                &&& binaries[found].serves(key, stage)
                &&& forall|i: int| from <= i < found ==> !(#[trigger] binaries[i]).serves(key, stage)
            },
            None => forall|i: int|
                from <= i < binaries.len() ==> !(#[trigger] binaries[i]).serves(key, stage),
        },
    decreases binaries.len() - from,
{
    if from < binaries.len() && !binaries[from].serves(key, stage) {
        lemma_stage_index_is_first(binaries, key, stage, from + 1);
    }
}

/// Finds the first binary that serves the given pipeline and stage.
pub fn find_stage(binaries: &Vec<ShaderBinary>, key: PipelineKey, stage: StageKind) -> (found:
    Option<usize>)
    ensures
        match found {
            Some(index) => stage_index(binaries@, key, stage) == Some(index as int) && index
                < binaries.len(),
            None => stage_index(binaries@, key, stage) is None,
        },
{
    let n = binaries.len();
    let mut i: usize = 0;
    while i < n
        invariant
            n == binaries.len(),
            i <= n,
            stage_index(binaries@, key, stage) == stage_index_from(binaries@, key, stage, i as int),
        decreases n - i,
    {
        if binaries[i].pipeline == key && binaries[i].stage == stage {
            return Some(i);
        }
        i += 1;
    }
    None
}

/// How primitives are assembled from vertices.
#[derive(Clone, Copy, Debug, PartialEq, Eq, Structural)]
pub enum Topology {
    PointList,
    LineList,
    LineStrip,
    TriangleList,
    TriangleStrip,
}

/// The winding of a triangle that faces the viewer.
#[derive(Clone, Copy, Debug, PartialEq, Eq, Structural)]
pub enum FrontFace {
    Ccw,
    Cw,
}

/// The faces that are dropped before rasterization.
#[derive(Clone, Copy, Debug, PartialEq, Eq, Structural)]
pub enum CullMode {
    Neither,
    Front,
    Back,
}

/// One built pipeline: the stage binaries it was linked from, by their index
/// among the binaries given, and its fixed-function state.
#[derive(Clone, Copy, Debug, PartialEq, Eq, Structural)]
pub struct Pipeline {
    pub key: PipelineKey,
    pub vertex_stage: usize,
    pub fragment_stage: Option<usize>,
    pub topology: Topology,
    pub front_face: FrontFace,
    pub cull_mode: CullMode,
    pub target_format: PixelFormat,
}

/// Why a pipeline could not be built.
#[derive(Clone, Copy, Debug, PartialEq, Eq, Structural)]
pub enum ShaderLinkError {
    /// The vertex layout is not well formed.
    IncompatibleLayout,
    /// No binary serves the vertex stage of this pipeline.
    MissingVertexStage(PipelineKey),
    /// The binary at this index is not framed as a shader module.
    Malformed(usize),
}

/// The pipeline that is linked for a key: from the first binary for its vertex
/// stage, which has to be there, and the first for its fragment stage, if there
/// is one; triangles in a list, counter-clockwise faces to the front, back
/// faces culled, drawn into a target of the given format.
pub open spec fn linked(binaries: Seq<ShaderBinary>, key: PipelineKey, target_format: PixelFormat)
    -> Result<Pipeline, ShaderLinkError> {
    match stage_index(binaries, key, StageKind::Vertex) {
        None => Err(ShaderLinkError::MissingVertexStage(key)),
        Some(vertex) => if !is_framed(binaries[vertex].bytes@) {
            Err(ShaderLinkError::Malformed(vertex as usize))
        } else {
            match stage_index(binaries, key, StageKind::Fragment) {
                Some(fragment) => if !is_framed(binaries[fragment].bytes@) {
                    Err(ShaderLinkError::Malformed(fragment as usize))
                } else {
                    Ok(
                        Pipeline {
                            key,
                            vertex_stage: vertex as usize,
                            fragment_stage: Some(fragment as usize),
                            topology: Topology::TriangleList,
                            front_face: FrontFace::Ccw,
                            cull_mode: CullMode::Back,
                            target_format,
                        },
                    )
                },
                None => Ok(
                    Pipeline {
                        key,
                        vertex_stage: vertex as usize,
                        fragment_stage: None,
                        topology: Topology::TriangleList,
                        front_face: FrontFace::Ccw,
                        cull_mode: CullMode::Back,
                        target_format,
                    },
                ),
            }
        },
    }
}

/// Links the pipeline for one key.
pub fn link(binaries: &Vec<ShaderBinary>, key: PipelineKey, target_format: PixelFormat) -> (result:
    Result<Pipeline, ShaderLinkError>)
    ensures
        result == linked(binaries@, key, target_format),
{
    let vertex = match find_stage(binaries, key, StageKind::Vertex) {
        None => {
            return Err(ShaderLinkError::MissingVertexStage(key));
        },
        Some(vertex) => vertex,
    };
    if !check_framing(&binaries[vertex].bytes) {
        return Err(ShaderLinkError::Malformed(vertex));
    }
    let fragment_stage = match find_stage(binaries, key, StageKind::Fragment) {
        None => None,
        Some(fragment) => {
            if !check_framing(&binaries[fragment].bytes) {
                return Err(ShaderLinkError::Malformed(fragment));
            }
            Some(fragment)
        },
    };
    Ok(
        Pipeline {
            key,
            vertex_stage: vertex,
            fragment_stage,
            topology: Topology::TriangleList,
            front_face: FrontFace::Ccw,
            cull_mode: CullMode::Back,
            target_format,
        },
    )
}

/// The first thing that stands in the way of building both pipelines from the
/// binaries, the default pipeline looked at first.
pub open spec fn shader_fault(binaries: Seq<ShaderBinary>, target_format: PixelFormat) -> Option<
    ShaderLinkError,
> {
    if linked(binaries, PipelineKey::Default, target_format) is Err {
        Some(linked(binaries, PipelineKey::Default, target_format)->Err_0)
    } else if linked(binaries, PipelineKey::Alternate, target_format) is Err {
        Some(linked(binaries, PipelineKey::Alternate, target_format)->Err_0)
    } else {
        None
    }
}

/// Why no set of pipelines can be built from the given parts, if anything
/// stands in the way: the layout is looked at first, then the binaries.
pub open spec fn build_fault(
    binaries: Seq<ShaderBinary>,
    layout: VertexLayout,
    target_format: PixelFormat,
) -> Option<ShaderLinkError> {
    if !layout.well_formed() {
        Some(ShaderLinkError::IncompatibleLayout)
    } else {
        shader_fault(binaries, target_format)
    }
}

/// The pipelines of a renderer, one for each key. Once built, the set offers
/// no way to change a pipeline: it hands out copies.
#[derive(Clone, Debug)]
pub struct PipelineSet {
    default_pipeline: Pipeline,
    alternate_pipeline: Pipeline,
    layout: VertexLayout,
}

impl PipelineSet {
    /// The pipeline built for a key.
    pub closed spec fn pipeline(&self, key: PipelineKey) -> Pipeline {
        match key {
            PipelineKey::Default => self.default_pipeline,
            PipelineKey::Alternate => self.alternate_pipeline,
        }
    }

    /// The vertex layout that every pipeline of the set reads.
    pub closed spec fn vertex_layout(&self) -> VertexLayout {
        self.layout
    }

    /// Builds both pipelines on the context's device, each from its own stage
    /// binaries, all reading the same vertex layout and drawing into a target
    /// of the format that the context's adapter prefers, which is the format
    /// of a surface made for that context.
    pub fn build(context: &GraphicsContext, binaries: &Vec<ShaderBinary>, layout: VertexLayout) -> (result:
        Result<PipelineSet, ShaderLinkError>)
        ensures
            match build_fault(binaries@, layout, context.format()) {
                Some(fault) => result == Err::<PipelineSet, ShaderLinkError>(fault),
                None => {
                    &&& result is Ok
                    &&& result->Ok_0.vertex_layout() == layout
                    &&& forall|key: PipelineKey| #[trigger]
                        linked(binaries@, key, context.format()) == Ok::<Pipeline, ShaderLinkError>(
                            result->Ok_0.pipeline(key),
                        )
                },
            },
    {
        if !layout.is_well_formed() {
            return Err(ShaderLinkError::IncompatibleLayout);
        }
        let target_format = context.preferred_format();
        let default_pipeline = match link(binaries, PipelineKey::Default, target_format) {
            Err(fault) => {
                return Err(fault);
            },
            Ok(pipeline) => pipeline,
        };
        let alternate_pipeline = match link(binaries, PipelineKey::Alternate, target_format) {
            Err(fault) => {
                return Err(fault);
            },
            Ok(pipeline) => pipeline,
        };
        Ok(PipelineSet { default_pipeline, alternate_pipeline, layout })
    }

    /// The pipeline built for a key.
    pub fn get(&self, key: PipelineKey) -> (pipeline: Pipeline)
        ensures
            pipeline == self.pipeline(key),
    {
        match key {
            PipelineKey::Default => self.default_pipeline,
            PipelineKey::Alternate => self.alternate_pipeline,
        }
    }

    /// The vertex layout that every pipeline of the set reads.
    pub fn layout(&self) -> (layout: &VertexLayout)
        ensures
            *layout == self.vertex_layout(),
    {
        &self.layout
    }
}

} // verus!
