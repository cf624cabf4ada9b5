use overlay_core::context::{
    client_dimensions, ClientRect, ContextState, Dimensions, ShadowContext,
};
use overlay_core::detour::{DetourBinding, DetourState};
use overlay_core::error::OverlayError;

fn rect(left: i32, top: i32, right: i32, bottom: i32) -> ClientRect {
    ClientRect { left, top, right, bottom }
}

#[test]
fn a_new_binding_has_nothing_to_call() {
    let binding = DetourBinding::new();
    assert_eq!(binding.state, DetourState::Uninitialized);
    assert_eq!(binding.target, 0);
    assert_eq!(binding.replacement, 0);
    assert_eq!(binding.trampoline, 0);
    assert_eq!(binding.call_through(), None);
}

#[test]
fn a_missing_symbol_is_a_resolution_error() {
    assert_eq!(DetourBinding::resolve(0), Err(OverlayError::SymbolResolution));
    assert_eq!(DetourBinding::resolve(0x7FF6_1000), Ok(0x7FF6_1000));
}

#[test]
fn install_then_enable() {
    let mut binding = DetourBinding::new();
    assert_eq!(binding.install(0x1000, 0x2000, Some(0x3000)), Ok(()));
    assert_eq!(
        binding,
        DetourBinding {
            target: 0x1000,
            replacement: 0x2000,
            trampoline: 0x3000,
            state: DetourState::Installed
        }
    );
    assert_eq!(binding.call_through(), Some(0x1000));
    assert_eq!(binding.enable(true), Ok(()));
    assert_eq!(binding.state, DetourState::Enabled);
    assert_eq!(binding.call_through(), Some(0x3000));
    assert_eq!(binding.disable(true), Ok(()));
    assert_eq!(binding.state, DetourState::Disabled);
    assert_eq!(binding.call_through(), Some(0x1000));
    assert_eq!(binding.enable(true), Ok(()));
    assert_eq!(binding.state, DetourState::Enabled);
}

#[test]
fn a_second_install_is_refused() {
    let mut binding = DetourBinding::new();
    assert_eq!(binding.install(0x1000, 0x2000, Some(0x3000)), Ok(()));
    let installed = binding;
    assert_eq!(binding.install(0x1000, 0x2000, Some(0x3000)), Err(OverlayError::HookInstall));
    assert_eq!(binding.install(0x4000, 0x5000, Some(0x6000)), Err(OverlayError::HookInstall));
    assert_eq!(binding, installed);
    assert_eq!(binding.enable(true), Ok(()));
    let enabled = binding;
    assert_eq!(binding.install(0x4000, 0x5000, Some(0x6000)), Err(OverlayError::HookInstall));
    assert_eq!(binding.install(0, 0x5000, Some(0x6000)), Err(OverlayError::HookInstall));
    assert_eq!(binding, enabled);
}

#[test]
fn install_needs_every_address() {
    let mut binding = DetourBinding::new();
    assert_eq!(binding.install(0, 0x2000, Some(0x3000)), Err(OverlayError::SymbolResolution));
    assert_eq!(binding.install(0x1000, 0, Some(0x3000)), Err(OverlayError::HookInstall));
    assert_eq!(binding.install(0x1000, 0x2000, None), Err(OverlayError::HookInstall));
    assert_eq!(binding.install(0x1000, 0x2000, Some(0)), Err(OverlayError::HookInstall));
    assert_eq!(binding, DetourBinding::new());
    assert_eq!(binding.install(0x1000, 0x2000, Some(0x3000)), Ok(()));
}

#[test]
fn enable_and_disable_need_the_right_state_and_a_patch_that_took() {
    let mut binding = DetourBinding::new();
    assert_eq!(binding.enable(true), Err(OverlayError::HookEnable));
    assert_eq!(binding.disable(true), Err(OverlayError::HookEnable));
    assert_eq!(binding, DetourBinding::new());
    assert_eq!(binding.install(0x1000, 0x2000, Some(0x3000)), Ok(()));
    assert_eq!(binding.disable(true), Err(OverlayError::HookEnable));
    assert_eq!(binding.enable(false), Err(OverlayError::HookEnable));
    assert_eq!(binding.state, DetourState::Installed);
    assert_eq!(binding.enable(true), Ok(()));
    assert_eq!(binding.enable(true), Err(OverlayError::HookEnable));
    assert_eq!(binding.disable(false), Err(OverlayError::HookEnable));
    assert_eq!(binding.state, DetourState::Enabled);
    assert_eq!(binding.disable(true), Ok(()));
    assert_eq!(binding.disable(true), Err(OverlayError::HookEnable));
    assert_eq!(binding.state, DetourState::Disabled);
}

#[test]
fn dimensions_are_the_extent_of_the_client_area() {
    assert_eq!(client_dimensions(rect(0, 0, 800, 600)), Ok(Dimensions { width: 800, height: 600 }));
    assert_eq!(client_dimensions(rect(10, 20, 110, 70)), Ok(Dimensions { width: 100, height: 50 }));
    assert_eq!(client_dimensions(rect(-50, -50, 50, 50)), Ok(Dimensions { width: 100, height: 100 }));
    assert_eq!(client_dimensions(rect(5, 5, 5, 5)), Ok(Dimensions { width: 0, height: 0 }));
    assert_eq!(
        client_dimensions(rect(0, 0, i32::MAX, i32::MAX)),
        Ok(Dimensions { width: i32::MAX as u32, height: i32::MAX as u32 })
    );
}

#[test]
fn a_client_area_turned_inside_out_gives_no_dimensions() {
    assert_eq!(client_dimensions(rect(1, 0, 0, 600)), Err(OverlayError::SurfaceQuery));
    assert_eq!(client_dimensions(rect(0, 1, 800, 0)), Err(OverlayError::SurfaceQuery));
    assert_eq!(client_dimensions(rect(-1, 0, i32::MAX, 600)), Err(OverlayError::SurfaceQuery));
    assert_eq!(client_dimensions(rect(0, i32::MIN, 800, 0)), Err(OverlayError::SurfaceQuery));
    assert_eq!(client_dimensions(rect(i32::MAX, 0, i32::MIN, 0)), Err(OverlayError::SurfaceQuery));
}

#[test]
fn a_context_is_created_once() {
    let mut context = ShadowContext::new();
    assert_eq!(context.state, ContextState::Uninitialized);
    assert!(context.needs_creation());
    assert_eq!(context.current_dimensions(), Err(OverlayError::State));
    assert_eq!(context.ensure_initialized(rect(0, 0, 640, 480)), Ok(()));
    assert!(!context.needs_creation());
    assert_eq!(context.state, ContextState::Ready);
    assert_eq!(context.current_dimensions(), Ok(Dimensions { width: 640, height: 480 }));
    assert_eq!(context.ensure_initialized(rect(0, 0, 1, 1)), Ok(()));
    assert_eq!(context.ensure_initialized(rect(0, 0, -1, -1)), Ok(()));
    assert_eq!(context.current_dimensions(), Ok(Dimensions { width: 640, height: 480 }));
}

#[test]
fn a_context_is_not_created_without_dimensions() {
    let mut context = ShadowContext::new();
    assert_eq!(context.ensure_initialized(rect(0, 0, -1, 480)), Err(OverlayError::SurfaceQuery));
    assert_eq!(context, ShadowContext::new());
    assert_eq!(context.ensure_initialized(rect(0, 0, 640, 480)), Ok(()));
}

#[test]
fn resize_changes_the_dimensions_only() {
    let mut context = ShadowContext::new();
    assert_eq!(context.resize(Dimensions { width: 1, height: 1 }), Err(OverlayError::State));
    assert_eq!(context, ShadowContext::new());
    assert_eq!(context.ensure_initialized(rect(0, 0, 640, 480)), Ok(()));
    assert_eq!(context.resize(Dimensions { width: 800, height: 600 }), Ok(()));
    assert_eq!(
        context,
        ShadowContext { state: ContextState::Ready, dimensions: Dimensions { width: 800, height: 600 } }
    );
}

#[test]
fn a_context_is_destroyed_once_and_useless_afterwards() {
    let mut context = ShadowContext::new();
    assert_eq!(context.destroy(), Err(OverlayError::State));
    assert_eq!(context.ensure_initialized(rect(0, 0, 640, 480)), Ok(()));
    assert_eq!(context.destroy(), Ok(()));
    assert_eq!(context.state, ContextState::Destroyed);
    let destroyed = context;
    assert_eq!(context.destroy(), Err(OverlayError::State));
    assert_eq!(context.resize(Dimensions { width: 800, height: 600 }), Err(OverlayError::State));
    assert_eq!(context.ensure_initialized(rect(0, 0, 640, 480)), Err(OverlayError::State));
    assert_eq!(context.current_dimensions(), Err(OverlayError::State));
    assert!(!context.needs_creation());
    assert_eq!(context, destroyed);
}
