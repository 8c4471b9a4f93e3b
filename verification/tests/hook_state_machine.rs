use elertan_cheat_base::callback::CallbackRegistry;
use elertan_cheat_base::d3d9_hook::{
    end_scene_detour, find_window_for_process, get_d3d_device, vmt_method_slot_address,
    D3D9Environment, D3D9Hook, D3D9HookInstallError, DeviceState, GetD3DDeviceError,
    END_SCENE_SLOT, VMT_SLOT_COUNT,
};
use elertan_cheat_base::hooks::{InstallError, UninstallError};

fn working_environment() -> D3D9Environment {
    D3D9Environment {
        module_present: true,
        d3d_created: Some(0x1000),
        process_window: Some(0x2000),
        fullscreen_attempt: Ok(0x3000),
        windowed_attempt: Err(-1),
    }
}

fn fresh_vmt() -> Vec<u64> {
    (0..VMT_SLOT_COUNT as u64).map(|slot| 0x7000_0000 + slot).collect()
}

#[test]
fn install_then_install_reports_already_installed_without_altering_hook() {
    let mut hook = D3D9Hook::new();
    let mut vmt = fresh_vmt();
    let env = working_environment();
    let original = vmt[END_SCENE_SLOT];

    assert_eq!(hook.install(&env, &mut vmt, 0xBEEF), Ok(()));
    assert!(hook.is_installed());
    assert_eq!(vmt[END_SCENE_SLOT], 0xBEEF);

    let second = hook.install(&env, &mut vmt, 0xFACE);
    assert_eq!(second, Err(InstallError::AlreadyInstalled));
    // The active hook is untouched: still installed, slot still redirected
    // to the first interceptor, original still preserved.
    assert!(hook.is_installed());
    assert_eq!(vmt[END_SCENE_SLOT], 0xBEEF);

    assert_eq!(hook.uninstall(&mut vmt), Ok(()));
    assert_eq!(vmt[END_SCENE_SLOT], original);
}

#[test]
fn uninstall_then_uninstall_reports_not_installed() {
    let mut hook = D3D9Hook::new();
    let mut vmt = fresh_vmt();
    let env = working_environment();

    assert_eq!(hook.install(&env, &mut vmt, 0xBEEF), Ok(()));
    assert_eq!(hook.uninstall(&mut vmt), Ok(()));
    assert_eq!(hook.uninstall(&mut vmt), Err(UninstallError::NotInstalled));
    assert!(!hook.is_installed());
}

#[test]
fn install_uninstall_install_cycle_restores_full_functionality() {
    let mut hook = D3D9Hook::new();
    let mut vmt = fresh_vmt();
    let env = working_environment();
    let original = vmt[END_SCENE_SLOT];

    assert_eq!(hook.install(&env, &mut vmt, 0xBEEF), Ok(()));
    assert_eq!(hook.uninstall(&mut vmt), Ok(()));
    assert_eq!(vmt[END_SCENE_SLOT], original);
    assert!(!hook.is_installed());

    // Reinstalling succeeds and redirects the slot again, preserving the
    // same original address.
    assert_eq!(hook.install(&env, &mut vmt, 0xFACE), Ok(()));
    assert!(hook.is_installed());
    assert_eq!(vmt[END_SCENE_SLOT], 0xFACE);
    assert_eq!(hook.uninstall(&mut vmt), Ok(()));
    assert_eq!(vmt[END_SCENE_SLOT], original);
}

#[test]
fn uninstall_on_fresh_hook_reports_not_installed() {
    // A freshly constructed, never-installed hook refuses uninstall and
    // stays uninstalled.
    let mut hook = D3D9Hook::new();
    let mut vmt = fresh_vmt();
    assert_eq!(hook.uninstall(&mut vmt), Err(UninstallError::NotInstalled));
    assert!(!hook.is_installed());
}

#[test]
fn install_without_module_reports_module_not_found() {
    let mut hook = D3D9Hook::new();
    let mut vmt = fresh_vmt();
    let env = D3D9Environment { module_present: false, ..working_environment() };
    let before = vmt.clone();
    assert_eq!(
        hook.install(&env, &mut vmt, 0xBEEF),
        Err(InstallError::Other(D3D9HookInstallError::ModuleNotFound))
    );
    assert!(!hook.is_installed());
    assert_eq!(vmt, before);
}

#[test]
fn install_reports_each_acquisition_failure() {
    let mut vmt = fresh_vmt();

    let mut hook = D3D9Hook::new();
    let env = D3D9Environment { d3d_created: None, ..working_environment() };
    assert_eq!(
        hook.install(&env, &mut vmt, 1),
        Err(InstallError::Other(D3D9HookInstallError::D3DCreationFailed))
    );

    let mut hook = D3D9Hook::new();
    let env = D3D9Environment { process_window: None, ..working_environment() };
    assert_eq!(
        hook.install(&env, &mut vmt, 1),
        Err(InstallError::Other(D3D9HookInstallError::WindowNotFound))
    );

    let mut hook = D3D9Hook::new();
    let env = D3D9Environment {
        fullscreen_attempt: Err(-7),
        windowed_attempt: Err(-9),
        ..working_environment()
    };
    assert_eq!(
        hook.install(&env, &mut vmt, 1),
        Err(InstallError::Other(D3D9HookInstallError::DeviceCreationFailed {
            failure_code: -9
        }))
    );
    assert!(!hook.is_installed());
}

#[test]
fn device_acquisition_retries_windowed_mode_once() {
    // The full-screen attempt fails, the windowed retry succeeds: the
    // acquisition succeeds with the retried device.
    let env = D3D9Environment {
        fullscreen_attempt: Err(-3),
        windowed_attempt: Ok(0x4000),
        ..working_environment()
    };
    let handles = get_d3d_device(&env).unwrap();
    assert_eq!(handles.device, 0x4000);
    assert_eq!(handles.context, 0x1000);

    // Both attempts fail: the failure carries the second attempt's code.
    let env = D3D9Environment {
        fullscreen_attempt: Err(-3),
        windowed_attempt: Err(-5),
        ..working_environment()
    };
    assert_eq!(
        get_d3d_device(&env),
        Err(GetD3DDeviceError::DeviceCreationFailed { failure_code: -5 })
    );
}

#[test]
fn install_retains_handles_and_uninstall_releases_them() {
    let mut hook = D3D9Hook::new();
    let mut vmt = fresh_vmt();
    let env = working_environment();
    assert_eq!(hook.context(), None);
    assert_eq!(hook.device(), None);
    assert_eq!(hook.install(&env, &mut vmt, 0xBEEF), Ok(()));
    assert_eq!(hook.context(), Some(0x1000));
    assert_eq!(hook.device(), Some(0x3000));
    assert_eq!(hook.uninstall(&mut vmt), Ok(()));
    assert_eq!(hook.context(), None);
    assert_eq!(hook.device(), None);
}

#[test]
fn slot_address_follows_vtable_layout() {
    // vtable base + ordinal * pointer size; EndScene at ordinal 42 with
    // 4-byte pointers sits 168 bytes into the table.
    assert_eq!(vmt_method_slot_address(0x1000, END_SCENE_SLOT, 4), 0x1000 + 168);
    assert_eq!(vmt_method_slot_address(0x1000, 0, 4), 0x1000);
    assert_eq!(vmt_method_slot_address(0, 3, 8), 24);
}

#[test]
fn find_window_returns_first_window_of_process() {
    let windows: Vec<(u64, u32)> = vec![(0xA, 100), (0xB, 200), (0xC, 200), (0xD, 300)];
    assert_eq!(find_window_for_process(&windows, 200), Some(0xB));
    assert_eq!(find_window_for_process(&windows, 300), Some(0xD));
    assert_eq!(find_window_for_process(&windows, 999), None);
    assert_eq!(find_window_for_process(&Vec::new(), 1), None);
}

#[test]
fn detour_forwards_original_result_unchanged() {
    let registry: CallbackRegistry<u64> = CallbackRegistry::new();
    let mut device: DeviceState<u64> = DeviceState::new();
    // No callback registered: a no-op, and the original's result passes
    // through untouched.
    assert_eq!(end_scene_detour(&registry, &mut device, 7), 7);
    assert!(device.invocations.is_empty());
}

#[test]
fn detour_invokes_registered_callback_then_forwards() {
    let mut registry: CallbackRegistry<u64> = CallbackRegistry::new();
    let mut device: DeviceState<u64> = DeviceState::new();
    D3D9Hook::set_device_hook_callback(&mut registry, 0xCB1);
    assert_eq!(end_scene_detour(&registry, &mut device, 0), 0);
    assert_eq!(end_scene_detour(&registry, &mut device, -4), -4);
    assert_eq!(device.invocations, vec![0xCB1, 0xCB1]);
}

#[test]
fn replacing_callback_is_observed_whole() {
    // After set(cb1) then set(cb2), an invocation observes cb2 in full —
    // one of the two values entire, never a mixture.
    let mut registry: CallbackRegistry<(u32, u32)> = CallbackRegistry::new();
    registry.set((1, 1));
    registry.set((2, 2));
    assert_eq!(registry.current(), &Some((2, 2)));
    let mut device: DeviceState<(u32, u32)> = DeviceState::new();
    end_scene_detour(&registry, &mut device, 0);
    assert_eq!(device.invocations, vec![(2, 2)]);
}

#[test]
fn registry_starts_empty_and_reports_state() {
    let mut registry: CallbackRegistry<u8> = CallbackRegistry::new();
    assert!(!registry.is_set());
    assert_eq!(registry.current(), &None);
    registry.set(9);
    assert!(registry.is_set());
    assert_eq!(registry.current(), &Some(9));
}

#[test]
fn is_hookable_follows_module_presence() {
    assert!(D3D9Hook::is_hookable(&working_environment()));
    assert!(!D3D9Hook::is_hookable(&D3D9Environment {
        module_present: false,
        ..working_environment()
    }));
}
