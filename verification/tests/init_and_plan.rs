use wgpu_winsafe_compat::config::{window_config, window_title, WindowConfig};
use wgpu_winsafe_compat::init::{advance_init, InitStage};
use wgpu_winsafe_compat::plan::{
    plan_pipeline, redraw_plan, select_swapchain_format, shader_entry_points, PipelinePlan,
};
use wgpu_winsafe_compat::target::WindowMain;

#[test]
fn construction_runs_through_all_stages() {
    let mut stage = InitStage::CreateInstance;
    let order = [
        InitStage::CreateSurface,
        InitStage::RequestAdapter,
        InitStage::RequestDevice,
        InitStage::CompileShader,
        InitStage::QueryFormats,
        InitStage::BuildPipeline,
        InitStage::ConfigureSurface,
        InitStage::Ready,
    ];
    for expected in order {
        stage = advance_init(stage, true);
        assert_eq!(stage, expected);
    }
}

#[test]
fn adapter_failure_halts_before_device_creation() {
    // Instance and surface creation succeed, the adapter request fails:
    // construction ends Failed and never enters RequestDevice or Ready.
    let mut stage = InitStage::CreateInstance;
    stage = advance_init(stage, true);
    stage = advance_init(stage, true);
    assert_eq!(stage, InitStage::RequestAdapter);
    stage = advance_init(stage, false);
    assert_eq!(stage, InitStage::Failed);
    for ok in [true, false, true] {
        stage = advance_init(stage, ok);
        assert_ne!(stage, InitStage::RequestDevice);
        assert_ne!(stage, InitStage::Ready);
        assert_eq!(stage, InitStage::Failed);
    }
}

#[test]
fn picks_first_reported_format() {
    // Format codes stand in for the surface's reported capability list.
    let formats = vec![17u32, 4u32, 9u32];
    assert_eq!(select_swapchain_format(&formats), Some(17));
}

#[test]
fn no_reported_format_is_fatal() {
    let formats: Vec<u32> = vec![];
    assert_eq!(select_swapchain_format(&formats), None);
    assert_eq!(plan_pipeline(0), None);
}

#[test]
fn pipeline_targets_first_format_with_empty_layout() {
    let plan = plan_pipeline(3).unwrap();
    assert_eq!(
        plan,
        PipelinePlan {
            format_index: 0,
            bind_group_layouts: 0,
            push_constant_ranges: 0,
            vertex_buffers: 0,
            depth_stencil: false,
        }
    );
}

#[test]
fn shader_has_vertex_and_fragment_entry_points() {
    assert_eq!(shader_entry_points(), ("vs_main", "fs_main"));
}

#[test]
fn redraw_clears_green_and_draws_one_triangle() {
    let plan = redraw_plan();
    assert_eq!(
        (plan.clear_red, plan.clear_green, plan.clear_blue, plan.clear_alpha),
        (0, 1, 0, 1)
    );
    assert_eq!(plan.color_attachments, 1);
    assert!(!plan.depth_stencil);
    assert_eq!(plan.vertex_count, 3);
    assert_eq!(plan.instance_count, 1);
    assert_eq!(plan.submits, 1);
    assert_eq!(plan.presents, 1);
}

#[test]
fn window_config_is_maximized_resizable_300_by_150() {
    assert_eq!(
        window_config(),
        WindowConfig { width: 300, height: 150, maximized: true, resizable: true }
    );
    assert_eq!(window_title(), "wilistat");
}

#[test]
fn target_rejects_zero_handles() {
    assert_eq!(WindowMain::new(0, 5), None);
    assert_eq!(WindowMain::new(5, 0), None);
    assert_eq!(WindowMain::new(0, 0), None);
}

#[test]
fn target_keeps_nonzero_handles() {
    let t = WindowMain::new(0x1234, -7).unwrap();
    assert_eq!(t, WindowMain { hwnd: 0x1234, hinstance: -7 });
}
