use render_state::context::{AdapterRequest, BuildTarget, DeviceRequest};
use render_state::error::StartupError;
use render_state::frame::Phase;
use render_state::pipeline::PipelineDescription;
use render_state::size::Size;
use render_state::startup::{Startup, StartupAction, StartupEvent, StartupPhase};
use render_state::surface::Capabilities;
use render_state::vertex::{Vertex, VertexBuffer};
use wgpu::{CompositeAlphaMode, PresentMode, TextureFormat};

fn capabilities() -> Capabilities {
    Capabilities {
        formats: vec![TextureFormat::Bgra8Unorm, TextureFormat::Bgra8UnormSrgb],
        present_modes: vec![PresentMode::Fifo, PresentMode::Immediate],
        alpha_modes: vec![CompositeAlphaMode::Opaque],
    }
}

fn startup(target: BuildTarget, size: Size) -> Startup {
    let vertices = vec![Vertex { position: [0; 3], color: [0; 3] }; 3];
    Startup::new(target, size, VertexBuffer::build(&vertices).unwrap())
}

/// Reports success for every step until `phase` is reached.
fn advance_to(startup: &mut Startup, phase: StartupPhase) {
    let mut action = startup.advance(StartupEvent::Begin);
    while startup.phase() != phase {
        let event = match action {
            StartupAction::QueryCapabilities => StartupEvent::Capabilities(capabilities()),
            StartupAction::Finish | StartupAction::Fail(_) | StartupAction::Ignored => {
                panic!("start-up ended before {:?}", phase)
            }
            _ => StartupEvent::Completed,
        };
        action = startup.advance(event);
    }
}

#[test]
fn startup_asks_for_each_step_in_order() {
    let mut startup = startup(BuildTarget::Native, Size::new(450, 400));
    assert_eq!(startup.phase(), StartupPhase::NotStarted);
    assert_eq!(startup.advance(StartupEvent::Begin), StartupAction::CreateSurface);
    assert_eq!(
        startup.advance(StartupEvent::Completed),
        StartupAction::RequestAdapter(AdapterRequest::new())
    );
    assert_eq!(
        startup.advance(StartupEvent::Completed),
        StartupAction::RequestDevice(DeviceRequest::new(BuildTarget::Native))
    );
    assert_eq!(startup.advance(StartupEvent::Completed), StartupAction::QueryCapabilities);
    let action = startup.advance(StartupEvent::Capabilities(capabilities()));
    match action {
        StartupAction::ConfigureSurface(config) => {
            assert_eq!(config.format, TextureFormat::Bgra8UnormSrgb);
            assert_eq!(config.present_mode, PresentMode::Fifo);
            assert_eq!(config.alpha_mode, CompositeAlphaMode::Opaque);
            assert_eq!((config.width, config.height), (450, 400));
            assert_eq!(config.max_queued_frames, 2);
        }
        other => panic!("expected the surface to be configured, got {:?}", other),
    }
    assert_eq!(startup.advance(StartupEvent::Completed), StartupAction::CompileShader);
    assert_eq!(
        startup.advance(StartupEvent::Completed),
        StartupAction::BuildPipeline(PipelineDescription::new(TextureFormat::Bgra8UnormSrgb))
    );
    assert_eq!(startup.advance(StartupEvent::Completed), StartupAction::UploadVertices);
    assert_eq!(startup.vertex_bytes().len(), 72);
    assert_eq!(startup.advance(StartupEvent::Completed), StartupAction::Finish);
    assert_eq!(startup.phase(), StartupPhase::Ready);

    let state = startup.finish().unwrap();
    assert_eq!(state.phase(), Phase::Idle);
    assert_eq!(state.size(), Size::new(450, 400));
    assert_eq!(state.num_vertices(), 3);
    assert_eq!(state.pipeline(), PipelineDescription::new(TextureFormat::Bgra8UnormSrgb));
}

#[test]
fn web_target_asks_for_reduced_limits() {
    let mut startup = startup(BuildTarget::Web, Size::new(450, 400));
    advance_to(&mut startup, StartupPhase::RequestingAdapter);
    assert_eq!(
        startup.advance(StartupEvent::Completed),
        StartupAction::RequestDevice(DeviceRequest::new(BuildTarget::Web))
    );
}

#[test]
fn failed_surface_is_surface_creation_failed() {
    let mut startup = startup(BuildTarget::Native, Size::new(450, 400));
    advance_to(&mut startup, StartupPhase::CreatingSurface);
    assert_eq!(
        startup.advance(StartupEvent::Failed),
        StartupAction::Fail(StartupError::SurfaceCreationFailed)
    );
    assert_eq!(startup.phase(), StartupPhase::Failed(StartupError::SurfaceCreationFailed));
    assert!(startup.finish().is_none());
}

#[test]
fn missing_adapter_is_no_adapter() {
    let mut startup = startup(BuildTarget::Native, Size::new(450, 400));
    advance_to(&mut startup, StartupPhase::RequestingAdapter);
    assert_eq!(startup.advance(StartupEvent::Failed), StartupAction::Fail(StartupError::NoAdapter));
    assert_eq!(startup.phase(), StartupPhase::Failed(StartupError::NoAdapter));
}

#[test]
fn refused_device_is_no_device() {
    let mut startup = startup(BuildTarget::Native, Size::new(450, 400));
    advance_to(&mut startup, StartupPhase::RequestingDevice);
    assert_eq!(startup.advance(StartupEvent::Failed), StartupAction::Fail(StartupError::NoDevice));
    assert_eq!(startup.phase(), StartupPhase::Failed(StartupError::NoDevice));
}

#[test]
fn unusable_capabilities_are_surface_creation_failed() {
    let mut startup = startup(BuildTarget::Native, Size::new(450, 400));
    advance_to(&mut startup, StartupPhase::QueryingCapabilities);
    let nothing = Capabilities { formats: vec![], present_modes: vec![], alpha_modes: vec![CompositeAlphaMode::Opaque] };
    assert_eq!(
        startup.advance(StartupEvent::Capabilities(nothing)),
        StartupAction::Fail(StartupError::SurfaceCreationFailed)
    );
    assert_eq!(startup.phase(), StartupPhase::Failed(StartupError::SurfaceCreationFailed));
}

#[test]
fn zero_initial_size_is_surface_creation_failed() {
    let mut startup = startup(BuildTarget::Native, Size::new(0, 400));
    advance_to(&mut startup, StartupPhase::QueryingCapabilities);
    assert_eq!(
        startup.advance(StartupEvent::Capabilities(capabilities())),
        StartupAction::Fail(StartupError::SurfaceCreationFailed)
    );
}

#[test]
fn rejected_shader_is_shader_compile_failed_and_builds_no_pipeline() {
    let mut startup = startup(BuildTarget::Native, Size::new(450, 400));
    advance_to(&mut startup, StartupPhase::CompilingShader);
    assert_eq!(
        startup.advance(StartupEvent::Failed),
        StartupAction::Fail(StartupError::ShaderCompileFailed)
    );
    assert_eq!(startup.phase(), StartupPhase::Failed(StartupError::ShaderCompileFailed));
    for _ in 0..3 {
        assert_eq!(startup.advance(StartupEvent::Completed), StartupAction::Ignored);
        assert_eq!(startup.advance(StartupEvent::Begin), StartupAction::Ignored);
        assert_eq!(startup.advance(StartupEvent::Failed), StartupAction::Ignored);
        assert_eq!(
            startup.advance(StartupEvent::Capabilities(capabilities())),
            StartupAction::Ignored
        );
        assert_eq!(startup.phase(), StartupPhase::Failed(StartupError::ShaderCompileFailed));
    }
    assert!(startup.finish().is_none());
}

#[test]
fn rejected_pipeline_is_pipeline_build_failed() {
    let mut first = startup(BuildTarget::Native, Size::new(450, 400));
    advance_to(&mut first, StartupPhase::BuildingPipeline);
    assert_eq!(
        first.advance(StartupEvent::Failed),
        StartupAction::Fail(StartupError::PipelineBuildFailed)
    );
    let mut second = startup(BuildTarget::Native, Size::new(450, 400));
    advance_to(&mut second, StartupPhase::UploadingVertices);
    assert_eq!(
        second.advance(StartupEvent::Failed),
        StartupAction::Fail(StartupError::PipelineBuildFailed)
    );
}

#[test]
fn failed_configuration_is_surface_creation_failed() {
    let mut startup = startup(BuildTarget::Native, Size::new(450, 400));
    advance_to(&mut startup, StartupPhase::ConfiguringSurface);
    assert_eq!(
        startup.advance(StartupEvent::Failed),
        StartupAction::Fail(StartupError::SurfaceCreationFailed)
    );
}

#[test]
fn startup_is_not_finished_before_it_is_ready() {
    let phases = [
        StartupPhase::CreatingSurface,
        StartupPhase::RequestingAdapter,
        StartupPhase::RequestingDevice,
        StartupPhase::QueryingCapabilities,
        StartupPhase::ConfiguringSurface,
        StartupPhase::CompilingShader,
        StartupPhase::BuildingPipeline,
        StartupPhase::UploadingVertices,
    ];
    assert!(startup(BuildTarget::Native, Size::new(450, 400)).finish().is_none());
    for phase in phases {
        let mut startup = startup(BuildTarget::Native, Size::new(450, 400));
        advance_to(&mut startup, phase);
        assert!(startup.finish().is_none());
    }
}

#[test]
fn events_out_of_turn_are_ignored() {
    let mut startup = startup(BuildTarget::Native, Size::new(450, 400));
    assert_eq!(startup.advance(StartupEvent::Completed), StartupAction::Ignored);
    assert_eq!(startup.advance(StartupEvent::Failed), StartupAction::Ignored);
    assert_eq!(startup.phase(), StartupPhase::NotStarted);
    advance_to(&mut startup, StartupPhase::QueryingCapabilities);
    assert_eq!(startup.advance(StartupEvent::Completed), StartupAction::Ignored);
    assert_eq!(startup.advance(StartupEvent::Begin), StartupAction::Ignored);
    assert_eq!(startup.phase(), StartupPhase::QueryingCapabilities);
    advance_to_ready(&mut startup);
    assert_eq!(startup.advance(StartupEvent::Completed), StartupAction::Ignored);
    assert_eq!(startup.advance(StartupEvent::Failed), StartupAction::Ignored);
    assert_eq!(startup.phase(), StartupPhase::Ready);
}

fn advance_to_ready(startup: &mut Startup) {
    let mut action = startup.advance(StartupEvent::Capabilities(capabilities()));
    while action != StartupAction::Finish {
        action = startup.advance(StartupEvent::Completed);
    }
}
