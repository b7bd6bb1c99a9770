//! The kinds of render pipeline and what follows from the kind.

use vstd::prelude::*;

verus! {

/// How a pipeline draws its triangles.
#[derive(Clone, Copy, Debug, PartialEq, Eq, Structural)]
pub enum PipelineType {
    Solid,
    Wireframe,
}

/// How the vertices of a draw call are assembled into primitives.
#[derive(Clone, Copy, Debug, PartialEq, Eq, Structural)]
pub enum Topology {
    TriangleList,
    LineStrip,
}

impl PipelineType {
    /// The name of the shader that a pipeline of this kind uses when it was
    /// given none.
    pub fn default_shader(&self) -> (name: &'static str)
        ensures
            name@ == (match *self {
                PipelineType::Solid => "s_solid"@,
                PipelineType::Wireframe => "s_wireframe"@,
            }),
    {
        match self {
            PipelineType::Solid => "s_solid",
            PipelineType::Wireframe => "s_wireframe",
        }
    }

    /// What is reported when a pipeline of this kind is built without a
    /// shader of its own before its default shader was bound.
    pub fn missing_shader(&self) -> (message: &'static str)
        ensures
            message@ == (match *self {
                PipelineType::Solid => "The default solid shader \"s_solid\" was not inserted before pipeline build"@,
                PipelineType::Wireframe => "The default wireframe shader \"s_wireframe\" was not inserted before pipeline build"@,
            }),
    {
        match self {
            PipelineType::Solid => "The default solid shader \"s_solid\" was not inserted before pipeline build",
            PipelineType::Wireframe => "The default wireframe shader \"s_wireframe\" was not inserted before pipeline build",
        }
    }

    /// The label under which a pipeline of this kind is created.
    pub fn label(&self) -> (label: &'static str)
        ensures
            label@ == (match *self {
                PipelineType::Solid => "Solid Pipeline"@,
                PipelineType::Wireframe => "Wireframe Pipeline"@,
            }),
    {
        match self {
            PipelineType::Solid => "Solid Pipeline",
            PipelineType::Wireframe => "Wireframe Pipeline",
        }
    }

    /// Solid pipelines draw filled triangles, wireframe pipelines a strip of
    /// lines.
    pub fn topology(&self) -> (topology: Topology)
        ensures
            topology == (match *self {
                PipelineType::Solid => Topology::TriangleList,
                PipelineType::Wireframe => Topology::LineStrip,
            }),
    {
        match self {
            PipelineType::Solid => Topology::TriangleList,
            PipelineType::Wireframe => Topology::LineStrip,
        }
    }
}

/// What a pipeline is built from. `L` is the type of a bind group layout,
/// `C` that of a push constant range and `S` that of a compiled shader.
pub struct PipelineBuilder<L, C, S> {
    pipeline: PipelineType,
    label: Option<&'static str>,
    bind_group_layouts: Vec<L>,
    push_constant_ranges: Vec<C>,
    shader: Option<S>,
}

/// What a builder has been told so far.
pub struct PipelinePlan<L, C, S> {
    pub pipeline: PipelineType,
    pub label: Option<Seq<char>>,
    pub bind_group_layouts: Seq<L>,
    pub push_constant_ranges: Seq<C>,
    pub shader: Option<S>,
}

impl<L, C, S> View for PipelineBuilder<L, C, S> {
    type V = PipelinePlan<L, C, S>;

    closed spec fn view(&self) -> PipelinePlan<L, C, S> {
        PipelinePlan {
            pipeline: self.pipeline,
            label: match self.label {
                Some(label) => Some(label@),
                None => None,
            },
            bind_group_layouts: self.bind_group_layouts@,
            push_constant_ranges: self.push_constant_ranges@,
            shader: self.shader,
        }
    }
}

/// Where the shader of a pipeline comes from.
pub enum ShaderChoice<S> {
    /// The shader that the builder was given.
    Given(S),
    /// The renderer's shader of this name.
    Named(&'static str),
}

impl<L, C, S> PipelineBuilder<L, C, S> {
    pub fn new(pipeline: PipelineType) -> (builder: Self)
        ensures
            builder@ == (PipelinePlan {
                pipeline,
                label: None::<Seq<char>>,
                bind_group_layouts: Seq::<L>::empty(),
                push_constant_ranges: Seq::<C>::empty(),
                shader: None::<S>,
            }),
    {
        PipelineBuilder {
            pipeline,
            label: None,
            bind_group_layouts: Vec::new(),
            push_constant_ranges: Vec::new(),
            shader: None,
        }
    }

    pub fn with_layout_label(self, label: &'static str) -> (builder: Self)
        ensures
            builder@ == (PipelinePlan { label: Some(label@), ..self@ }),
    {
        PipelineBuilder {
            pipeline: self.pipeline,
            label: Some(label),
            bind_group_layouts: self.bind_group_layouts,
            push_constant_ranges: self.push_constant_ranges,
            shader: self.shader,
        }
    }

    pub fn with_bind_group_layouts(self, layouts: Vec<L>) -> (builder: Self)
        ensures
            builder@ == (PipelinePlan { bind_group_layouts: layouts@, ..self@ }),
    {
        PipelineBuilder {
            pipeline: self.pipeline,
            label: self.label,
            bind_group_layouts: layouts,
            push_constant_ranges: self.push_constant_ranges,
            shader: self.shader,
        }
    }

    pub fn with_push_constant_ranges(self, ranges: Vec<C>) -> (builder: Self)
        ensures
            builder@ == (PipelinePlan { push_constant_ranges: ranges@, ..self@ }),
    {
        PipelineBuilder {
            pipeline: self.pipeline,
            label: self.label,
            bind_group_layouts: self.bind_group_layouts,
            push_constant_ranges: ranges,
            shader: self.shader,
        }
    }

    pub fn with_shader(self, shader: S) -> (builder: Self)
        ensures
            builder@ == (PipelinePlan { shader: Some(shader), ..self@ }),
    {
        PipelineBuilder {
            pipeline: self.pipeline,
            label: self.label,
            bind_group_layouts: self.bind_group_layouts,
            push_constant_ranges: self.push_constant_ranges,
            shader: Some(shader),
        }
    }

    pub fn pipeline(&self) -> (pipeline: PipelineType)
        ensures
            pipeline == self@.pipeline,
    {
        self.pipeline
    }

    /// The label of the pipeline layout: the one given, or else
    /// "Pipeline Layout".
    pub fn layout_label(&self) -> (label: &'static str)
        ensures
            label@ == (match self@.label {
                Some(given) => given,
                None => "Pipeline Layout"@,
            }),
    {
        match self.label {
            Some(given) => given,
            None => "Pipeline Layout",
        }
    }

    pub fn bind_group_layouts(&self) -> (layouts: &[L])
        ensures
            layouts@ == self@.bind_group_layouts,
    {
        self.bind_group_layouts.as_slice()
    }

    pub fn push_constant_ranges(&self) -> (ranges: &[C])
        ensures
            ranges@ == self@.push_constant_ranges,
    {
        self.push_constant_ranges.as_slice()
    }

    /// Ends the building and says which shader the pipeline uses: the one
    /// that was given, or else the renderer's default shader for this kind
    /// of pipeline.
    pub fn shader(self) -> (choice: ShaderChoice<S>)
        ensures
            match self@.shader {
                Some(given) => choice == ShaderChoice::Given(given),
                None => choice matches ShaderChoice::Named(name) && name@ == (match self@.pipeline {
                    PipelineType::Solid => "s_solid"@,
                    PipelineType::Wireframe => "s_wireframe"@,
                }),
            },
    {
        match self.shader {
            Some(given) => ShaderChoice::Given(given),
            None => ShaderChoice::Named(self.pipeline.default_shader()),
        }
    }
}

} // verus!
