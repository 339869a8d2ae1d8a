use smp_core::caps::{
    nv_use_shadow_null_color_render_target, DxCapsCheckBits, DxCapsCheckInteger, DxCapsResponse,
    DxGlobals, D3D_VENDOR_ID_NVIDIA,
};
use smp_core::clock::{milliseconds, Clock};
use smp_core::input_state::{activate, InputState};
use smp_core::paths::{default_cd_path, get_semaphore_file_path};

#[test]
fn milliseconds_latches_the_first_reading_as_epoch() {
    let mut clock = Clock::new();
    assert_eq!(milliseconds(&mut clock, 5_000), 0);
    assert_eq!(milliseconds(&mut clock, 5_250), 250);
    assert_eq!(milliseconds(&mut clock, 6_000), 1_000);
}

#[test]
fn milliseconds_clamps_a_backwards_step_to_zero() {
    let mut clock = Clock::new();
    assert_eq!(milliseconds(&mut clock, 5_000), 0);
    assert_eq!(milliseconds(&mut clock, 4_000), 0);
    assert_eq!(milliseconds(&mut clock, 5_100), 100);
}

#[test]
fn milliseconds_clamps_an_overwide_span() {
    let mut clock = Clock::new();
    assert_eq!(milliseconds(&mut clock, 0), 0);
    assert_eq!(
        milliseconds(&mut clock, isize::MAX as u64 + 5),
        isize::MAX
    );
}

#[test]
fn activation_captures_and_releases_the_pointer() {
    let mut input = InputState::new();
    assert!(!input.app_active);
    assert!(!input.mouse_active);
    activate(&mut input, true);
    assert!(input.app_active);
    assert!(input.mouse_active);
    activate(&mut input, false);
    assert!(!input.app_active);
    assert!(!input.mouse_active);
}

#[test]
fn semaphore_path_is_the_vendor_directory_under_the_user_folder() {
    let path = get_semaphore_file_path(Some("/home/player/.local/share"));
    assert_eq!(
        path.as_deref(),
        Some("/home/player/.local/share/CoD/Activision")
    );
    assert_eq!(get_semaphore_file_path(None), None);
}

#[test]
fn default_content_directory_is_empty() {
    assert_eq!(default_cd_path(), "");
}

#[test]
fn nv_depth_readback_gates_the_null_color_target() {
    let up = DxGlobals { adapter_index: 0, vendor_id: D3D_VENDOR_ID_NVIDIA, nv_initialized: true };
    let down = DxGlobals { adapter_index: 0, vendor_id: 0x1002, nv_initialized: false };
    assert!(nv_use_shadow_null_color_render_target(&up));
    assert!(!nv_use_shadow_null_color_render_target(&down));
    assert_eq!(D3D_VENDOR_ID_NVIDIA, 0x10DE);
}

#[test]
fn capability_checks_carry_their_failure_policy() {
    let bits = DxCapsCheckBits {
        offset: 4,
        set_bits: 0x1,
        clear_bits: 0x2,
        response: DxCapsResponse::Quit,
        message: "required capability missing",
    };
    assert_eq!(bits.response, DxCapsResponse::Quit);

    let ints = DxCapsCheckInteger {
        offset: 8,
        min: 2,
        max: 16,
        response: DxCapsResponse::Warn,
        message: "value out of range",
    };
    assert!(ints.min <= ints.max);
    assert_eq!(ints.response, DxCapsResponse::Warn);
}
