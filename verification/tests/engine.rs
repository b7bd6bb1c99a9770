use planet_sim::engine::pipeline::{PipelineBuilder, PipelineType, ShaderChoice, Topology};
use planet_sim::engine::shader::Shader;
use planet_sim::engine::uniform::{CameraBuffer, ScreenBuffer};

#[test]
fn shader_keeps_name_and_source() {
    let shader = Shader::new("s_solid", "@vertex fn vs_main() {}");
    assert_eq!(shader.name(), "s_solid");
    assert_eq!(shader.source(), "@vertex fn vs_main() {}");
}

#[test]
fn shader_with_empty_text() {
    let shader = Shader::new("", "");
    assert_eq!(shader.name(), "");
    assert_eq!(shader.source(), "");
}

#[test]
fn default_shaders_by_pipeline_type() {
    assert_eq!(PipelineType::Solid.default_shader(), "s_solid");
    assert_eq!(PipelineType::Wireframe.default_shader(), "s_wireframe");
}

#[test]
fn labels_by_pipeline_type() {
    assert_eq!(PipelineType::Solid.label(), "Solid Pipeline");
    assert_eq!(PipelineType::Wireframe.label(), "Wireframe Pipeline");
}

#[test]
fn topology_by_pipeline_type() {
    assert_eq!(PipelineType::Solid.topology(), Topology::TriangleList);
    assert_eq!(PipelineType::Wireframe.topology(), Topology::LineStrip);
}

#[test]
fn uniform_buffers_have_labels() {
    assert_eq!(ScreenBuffer::new(), ScreenBuffer);
    assert_eq!(ScreenBuffer::new().label(), "Screen Buffer");
    assert_eq!(CameraBuffer::new(), CameraBuffer);
    assert_eq!(CameraBuffer::new().label(), "Camera Buffer");
}

#[test]
fn a_new_builder_has_nothing_but_its_type() {
    let builder: PipelineBuilder<u8, u16, &str> = PipelineBuilder::new(PipelineType::Wireframe);
    assert_eq!(builder.pipeline(), PipelineType::Wireframe);
    assert_eq!(builder.layout_label(), "Pipeline Layout");
    assert!(builder.bind_group_layouts().is_empty());
    assert!(builder.push_constant_ranges().is_empty());
    match builder.shader() {
        ShaderChoice::Named(name) => assert_eq!(name, "s_wireframe"),
        ShaderChoice::Given(_) => panic!("no shader was given"),
    }
}

#[test]
fn a_builder_keeps_what_it_is_given() {
    let builder: PipelineBuilder<u8, u16, &str> = PipelineBuilder::new(PipelineType::Solid)
        .with_layout_label("Layout")
        .with_bind_group_layouts(vec![1, 2])
        .with_push_constant_ranges(vec![3])
        .with_shader("compiled");
    assert_eq!(builder.pipeline(), PipelineType::Solid);
    assert_eq!(builder.layout_label(), "Layout");
    assert_eq!(builder.bind_group_layouts(), &[1, 2]);
    assert_eq!(builder.push_constant_ranges(), &[3]);
    match builder.shader() {
        ShaderChoice::Given(shader) => assert_eq!(shader, "compiled"),
        ShaderChoice::Named(_) => panic!("a shader was given"),
    }
}

#[test]
fn a_solid_pipeline_without_a_shader_uses_the_solid_shader() {
    let builder: PipelineBuilder<u8, u16, &str> = PipelineBuilder::new(PipelineType::Solid);
    match builder.shader() {
        ShaderChoice::Named(name) => assert_eq!(name, "s_solid"),
        ShaderChoice::Given(_) => panic!("no shader was given"),
    }
}

#[test]
fn bind_groups_have_labels() {
    assert_eq!(ScreenBuffer::new().group_label(), "screen_bind_group");
    assert_eq!(CameraBuffer::new().group_label(), "camera_bind_group");
    assert_eq!(CameraBuffer::new().layout_label(), "camera_bind_group_layout");
}

#[test]
fn what_is_reported_when_the_default_shader_is_missing() {
    assert_eq!(
        PipelineType::Solid.missing_shader(),
        "The default solid shader \"s_solid\" was not inserted before pipeline build"
    );
    assert_eq!(
        PipelineType::Wireframe.missing_shader(),
        "The default wireframe shader \"s_wireframe\" was not inserted before pipeline build"
    );
}
