//! The render pipeline: a shader program bound to the layout of a vertex
//! and to fixed rasterization and blending.

use crate::surface::{SurfaceConfiguration, TextureFormat};
use crate::vertex::{Vertex, VertexBufferLayout};
use vstd::prelude::*;
use vstd::string::*;

verus! {

/// A language that shader source may be written in.
#[derive(Clone, Copy, Debug, PartialEq, Eq, Structural)]
pub enum ShaderLang {
    Wgsl,
    Glsl,
    Hlsl,
}

/// The source of a shader module.
#[derive(Debug, PartialEq, Eq)]
pub enum ShaderSource {
    Wgsl(String),
}

/// A shader module to be compiled.
#[derive(Debug, PartialEq, Eq)]
pub struct ShaderModuleDescriptor {
    pub label: Option<String>,
    pub source: ShaderSource,
}

/// A stage of the pipeline that a shader can run in.
#[derive(Clone, Copy, Debug, PartialEq, Eq, Structural)]
pub enum ShaderStage {
    Vertex,
    Fragment,
    Compute,
}

/// A function of a shader program that a stage can start at.
#[derive(Debug, PartialEq, Eq)]
pub struct EntryPoint {
    pub name: String,
    pub stage: ShaderStage,
}

/// A shader program: its module and the entry points that the module
/// exposes.
#[derive(Debug, PartialEq, Eq)]
pub struct ShaderProgram {
    pub module: ShaderModuleDescriptor,
    pub entry_points: Vec<EntryPoint>,
}

/// How vertices are assembled into primitives.
#[derive(Clone, Copy, Debug, PartialEq, Eq, Structural)]
pub enum PrimitiveTopology {
    PointList,
    LineList,
    LineStrip,
    TriangleList,
    TriangleStrip,
}

/// The width of an index.
#[derive(Clone, Copy, Debug, PartialEq, Eq, Structural)]
pub enum IndexFormat {
    Uint16,
    Uint32,
}

/// The winding of a triangle that faces the viewer.
#[derive(Clone, Copy, Debug, PartialEq, Eq, Structural)]
pub enum FrontFace {
    Ccw,
    Cw,
}

/// A side of a triangle.
#[derive(Clone, Copy, Debug, PartialEq, Eq, Structural)]
pub enum Face {
    Front,
    Back,
}

/// How a triangle is rasterized.
#[derive(Clone, Copy, Debug, PartialEq, Eq, Structural)]
pub enum PolygonMode {
    Fill,
    Line,
    Point,
}

/// How a fragment is combined with what the target holds.
#[derive(Clone, Copy, Debug, PartialEq, Eq, Structural)]
pub enum BlendState {
    Replace,
    AlphaBlending,
    PremultipliedAlphaBlending,
}

/// The channels of a target that are written.
#[derive(Clone, Copy, Debug, PartialEq, Eq, Structural)]
pub struct ColorWrites {
    pub red: bool,
    pub green: bool,
    pub blue: bool,
    pub alpha: bool,
}

/// The layout of a pipeline's resources.
#[derive(Clone, Copy, Debug, PartialEq, Eq)]
pub struct PipelineLayoutDescriptor {
    pub label: &'static str,
    /// The number of bind group layouts.
    pub bind_group_layouts: usize,
    /// The number of push constant ranges.
    pub push_constant_ranges: usize,
}

/// The vertex stage of a pipeline.
#[derive(Debug, PartialEq, Eq)]
pub struct VertexState {
    pub entry_point: &'static str,
    pub buffers: Vec<VertexBufferLayout>,
}

/// A colour target of a pipeline.
#[derive(Clone, Copy, Debug, PartialEq, Eq, Structural)]
pub struct ColorTargetState {
    pub format: TextureFormat,
    pub blend: Option<BlendState>,
    pub write_mask: ColorWrites,
}

/// The fragment stage of a pipeline.
#[derive(Debug, PartialEq, Eq)]
pub struct FragmentState {
    pub entry_point: &'static str,
    pub targets: Vec<ColorTargetState>,
}

/// How primitives are assembled and rasterized.
#[derive(Clone, Copy, Debug, PartialEq, Eq, Structural)]
pub struct PrimitiveState {
    pub topology: PrimitiveTopology,
    pub strip_index_format: Option<IndexFormat>,
    pub front_face: FrontFace,
    pub cull_mode: Option<Face>,
    pub polygon_mode: PolygonMode,
    pub unclipped_depth: bool,
    pub conservative: bool,
}

/// How a pipeline samples.
#[derive(Clone, Copy, Debug, PartialEq, Eq, Structural)]
pub struct MultisampleState {
    pub count: u32,
    pub mask: u64,
    pub alpha_to_coverage_enabled: bool,
}

/// A render pipeline to be created. Both stages run the one module.
#[derive(Debug, PartialEq, Eq)]
pub struct RenderPipelineDescriptor {
    pub label: &'static str,
    pub layout: PipelineLayoutDescriptor,
    pub module: ShaderModuleDescriptor,
    pub vertex: VertexState,
    pub fragment: Option<FragmentState>,
    pub primitive: PrimitiveState,
    /// Whether the pipeline tests depth or stencil.
    pub depth_stencil: bool,
    pub multisample: MultisampleState,
    pub multiview: Option<u32>,
}

/// Why a pipeline cannot be built of a shader program.
#[derive(Clone, Copy, Debug, PartialEq, Eq, Structural)]
pub enum BuildError {
    /// The program exposes no vertex entry point named `vs_main`.
    MissingVertexEntryPoint,
    /// The program exposes no fragment entry point named `fs_main`.
    MissingFragmentEntryPoint,
}

/// Makes a shader module of source text: the text is both the source of
/// the module and its label. Only WGSL can be loaded.
pub fn load_shader(source_str: &str, lang: ShaderLang) -> (descriptor: ShaderModuleDescriptor)
    requires
        lang == ShaderLang::Wgsl,
    ensures
        descriptor.label matches Some(label) && label@ == source_str@,
        descriptor.source matches ShaderSource::Wgsl(text) && text@ == source_str@,
{
    ShaderModuleDescriptor {
        label: Some(String::from_str(source_str)),
        source: ShaderSource::Wgsl(String::from_str(source_str)),
    }
}

/// Among `entry_points` there is one of the given stage and name.
pub open spec fn exposes(
    entry_points: Seq<EntryPoint>,
    stage: ShaderStage,
    name: Seq<char>,
) -> bool {
    exists|i: int|
        0 <= i < entry_points.len() && (#[trigger] entry_points[i]).stage == stage
            && entry_points[i].name@ == name
}

/// The error, if any, that keeps a pipeline from being built of a program
/// with these entry points. The vertex stage is looked up first.
pub open spec fn build_error(entry_points: Seq<EntryPoint>) -> Option<BuildError> {
    if !exposes(entry_points, ShaderStage::Vertex, "vs_main"@) {
        Some(BuildError::MissingVertexEntryPoint)
    } else if !exposes(entry_points, ShaderStage::Fragment, "fs_main"@) {
        Some(BuildError::MissingFragmentEntryPoint)
    } else {
        None
    }
}

/// A pipeline can be built of a program exactly where the program exposes
/// a vertex entry point named `vs_main` and a fragment entry point named
/// `fs_main`; where it lacks either, the build fails.
pub proof fn lemma_build_error(entry_points: Seq<EntryPoint>)
    ensures
        build_error(entry_points) is None <==> exposes(
            entry_points,
            ShaderStage::Vertex,
            "vs_main"@,
        ) && exposes(entry_points, ShaderStage::Fragment, "fs_main"@),
        build_error(entry_points) == Some(BuildError::MissingVertexEntryPoint) <==> !exposes(
            entry_points,
            ShaderStage::Vertex,
            "vs_main"@,
        ),
{
}

/// Looks an entry point up by stage and name.
fn has_entry_point(entry_points: &Vec<EntryPoint>, stage: ShaderStage, name: &str) -> (found: bool)
    ensures
        found == exposes(entry_points@, stage, name@),
{
    let wanted = String::from_str(name);
    let mut i: usize = 0;
    while i < entry_points.len()
        invariant
            i <= entry_points.len(),
            wanted@ == name@,
            forall|k: int|
                0 <= k < i ==> !((#[trigger] entry_points[k]).stage == stage
                    && entry_points[k].name@ == name@),
        decreases entry_points.len() - i,
    {
        if entry_points[i].stage == stage && entry_points[i].name == wanted {
            return true;
        }
        i += 1;
    }
    false
}

impl RenderPipelineDescriptor {
    /// The pipeline runs `module` from `vs_main` and `fs_main`, reads
    /// vertices in the layout of `Vertex`, assembles them into a list of
    /// triangles whose front is wound counter-clockwise, culls the back
    /// faces, fills, tests neither depth nor stencil, takes one sample, and
    /// writes every channel of one target of the format given, replacing
    /// what the target holds.
    pub open spec fn built_for(
        self,
        format: TextureFormat,
        module: ShaderModuleDescriptor,
    ) -> bool {
        &&& self.label@ == "Render Pipeline"@
        &&& self.layout.label@ == "Render Layout"@
        &&& self.layout.bind_group_layouts == 0
        &&& self.layout.push_constant_ranges == 0
        &&& self.module == module
        &&& self.vertex.entry_point@ == "vs_main"@
        &&& self.vertex.buffers@.len() == 1
        &&& self.vertex.buffers@[0].describes_vertices()
        &&& self.fragment matches Some(fragment)
        &&& fragment.entry_point@ == "fs_main"@
        &&& fragment.targets@ == seq![
            ColorTargetState {
                format,
                blend: Some(BlendState::Replace),
                write_mask: ColorWrites { red: true, green: true, blue: true, alpha: true },
            },
        ]
        &&& self.primitive == (PrimitiveState {
            topology: PrimitiveTopology::TriangleList,
            strip_index_format: None,
            front_face: FrontFace::Ccw,
            cull_mode: Some(Face::Back),
            polygon_mode: PolygonMode::Fill,
            unclipped_depth: false,
            conservative: false,
        })
        &&& !self.depth_stencil
        &&& self.multisample == (MultisampleState {
            count: 1,
            mask: 0xffff_ffff_ffff_ffff,
            alpha_to_coverage_enabled: false,
        })
        &&& self.multiview is None
    }
}

/// Builds the pipeline for a surface of the given configuration out of a
/// shader program. The program must expose a vertex entry point named
/// `vs_main` and a fragment entry point named `fs_main`.
pub fn build(config: &SurfaceConfiguration, shader: ShaderProgram) -> (built: Result<
    RenderPipelineDescriptor,
    BuildError,
>)
    ensures
        match built {
            Ok(pipeline) => {
                &&& build_error(shader.entry_points@) is None
                &&& pipeline.built_for(config.format, shader.module)
            },
            Err(error) => build_error(shader.entry_points@) == Some(error),
        },
{
    if !has_entry_point(&shader.entry_points, ShaderStage::Vertex, "vs_main") {
        return Err(BuildError::MissingVertexEntryPoint);
    }
    if !has_entry_point(&shader.entry_points, ShaderStage::Fragment, "fs_main") {
        return Err(BuildError::MissingFragmentEntryPoint);
    }
    let buffers = vec![Vertex::desc()];
    let targets = vec![
        ColorTargetState {
            format: config.format,
            blend: Some(BlendState::Replace),
            write_mask: ColorWrites { red: true, green: true, blue: true, alpha: true },
        },
    ];
    assert(targets@ =~= seq![
        ColorTargetState {
            format: config.format,
            blend: Some(BlendState::Replace),
            write_mask: ColorWrites { red: true, green: true, blue: true, alpha: true },
        },
    ]);
    Ok(
        RenderPipelineDescriptor {
            label: "Render Pipeline",
            layout: PipelineLayoutDescriptor {
                label: "Render Layout",
                bind_group_layouts: 0,
                push_constant_ranges: 0,
            },
            module: shader.module,
            vertex: VertexState { entry_point: "vs_main", buffers },
            fragment: Some(FragmentState { entry_point: "fs_main", targets }),
            primitive: PrimitiveState {
                topology: PrimitiveTopology::TriangleList,
                strip_index_format: None,
                front_face: FrontFace::Ccw,
                cull_mode: Some(Face::Back),
                polygon_mode: PolygonMode::Fill,
                unclipped_depth: false,
                conservative: false,
            },
            depth_stencil: false,
            multisample: MultisampleState {
                count: 1,
                mask: 0xffff_ffff_ffff_ffff,
                alpha_to_coverage_enabled: false,
            },
            multiview: None,
        },
    )
}

} // verus!
