//! Vtable interception of the rendering interface's `EndScene` method.
//!
//! Every instance of the intercepted interface carries, as its first memory
//! word, a pointer to a table of virtual-method slots shared by all
//! instances; the table's layout is a fixed external contract. The hook
//! reads the original function address out of the `EndScene` slot, writes
//! the interceptor's address into it, and restores the original address on
//! uninstall, so every call through the slot between install and uninstall
//! reaches the interceptor first and the interceptor can always forward to
//! the original.
//!
//! The outcomes of the operating-system steps — whether the target module is
//! loaded, whether a window of the process was found, and how the two device
//! creation attempts ended — enter through [`D3D9Environment`], and the
//! vtable itself through a slot vector, so that the whole install/uninstall
//! decision logic is verified for every possible outcome.

use vstd::prelude::*;

use crate::callback::CallbackRegistry;
use crate::hooks::{InstallError, UninstallError};

verus! {

/// Ordinal of the `EndScene` method within the intercepted interface's
/// vtable layout.
pub const END_SCENE_SLOT: usize = 42;

/// Number of virtual-method slots in the intercepted interface's vtable
/// layout.
pub const VMT_SLOT_COUNT: usize = 119;

/// Failure of an install attempt, beyond being already installed.
#[derive(Debug, PartialEq, Eq, Structural, Clone, Copy)]
pub enum D3D9HookInstallError {
    /// The target module is not loaded in the process.
    ModuleNotFound,
    /// No window belonging to the process was found to create a device for.
    WindowNotFound,
    /// The rendering context could not be created.
    D3DCreationFailed,
    /// Both device creation attempts failed; carries the failure code of the
    /// second attempt.
    DeviceCreationFailed { failure_code: i32 },
}

/// Failure of an uninstall attempt, beyond not being installed. Kept for
/// hook-specific teardown failures; the verified transitions never produce
/// it.
#[derive(Debug, PartialEq, Eq, Structural, Clone, Copy)]
pub enum D3D9HookUninstallError {
    Other,
}

/// Failure of the throwaway-device acquisition used to reach a vtable.
#[derive(Debug, PartialEq, Eq, Structural, Clone, Copy)]
pub enum GetD3DDeviceError {
    D3DCreationFailed,
    WindowNotFound,
    DeviceCreationFailed { failure_code: i32 },
}

/// Foreign handles produced by a successful device acquisition: the
/// rendering context and the throwaway device created from it. Both are
/// opaque non-null addresses in the process, to be released at teardown.
#[derive(Debug, PartialEq, Eq, Structural, Clone, Copy)]
pub struct DeviceHandles {
    pub context: u64,
    pub device: u64,
}

/// Outcomes of the operating-system steps an install attempt depends on,
/// gathered by the unverified runner.
#[derive(Debug, Clone, Copy)]
pub struct D3D9Environment {
    /// The target module is loaded in the process.
    pub module_present: bool,
    /// The rendering context handle, if creating one succeeded.
    pub d3d_created: Option<u64>,
    /// A window owned by the process, if one was found.
    pub process_window: Option<u64>,
    /// First device creation attempt (full-screen presentation mode):
    /// the device handle, or the failure code.
    pub fullscreen_attempt: Result<u64, i32>,
    /// Second device creation attempt (windowed presentation mode), made
    /// only if the first fails: the device handle, or the failure code.
    pub windowed_attempt: Result<u64, i32>,
}

/// The first window in `windows` owned by `process_id`, if any. Each entry
/// is a window handle paired with the id of its owning process, in the
/// order the window enumeration yields them.
pub open spec fn spec_find_window(windows: Seq<(u64, u32)>, process_id: u32) -> Option<u64>
    decreases windows.len(),
{
    if windows.len() == 0 {
        None
    } else if windows[0].1 == process_id {
        Some(windows[0].0)
    } else {
        spec_find_window(windows.skip(1), process_id)
    }
}

proof fn lemma_find_window_step(windows: Seq<(u64, u32)>, process_id: u32, i: int)
    requires
        0 <= i < windows.len(),
        windows[i].1 != process_id,
    ensures
        spec_find_window(windows.skip(i), process_id) == spec_find_window(
            windows.skip(i + 1),
            process_id,
        ),
{
    assert(windows.skip(i)[0] == windows[i]);
    assert(windows.skip(i).skip(1) =~= windows.skip(i + 1));
}

/// Walks the enumerated top-level windows and returns the handle of the
/// first one owned by `process_id`, as the window-enumeration callback of
/// the original acquisition path does.
pub fn find_window_for_process(windows: &Vec<(u64, u32)>, process_id: u32) -> (r: Option<u64>)
    ensures
        r == spec_find_window(windows@, process_id),
{
    let n = windows.len();
    let mut i: usize = 0;
    proof {
        assert(windows@.skip(0) =~= windows@);
    }
    while i < n
        invariant
            n == windows@.len(),
            i <= n,
            spec_find_window(windows@, process_id) == spec_find_window(
                windows@.skip(i as int),
                process_id,
            ),
        decreases n - i,
    {
        if windows[i].1 == process_id {
            assert(windows@.skip(i as int)[0] == windows@[i as int]);
            return Some(windows[i].0);
        }
        proof {
            lemma_find_window_step(windows@, process_id, i as int);
        }
        i += 1;
    }
    proof {
        assert(windows@.skip(n as int) =~= Seq::<(u64, u32)>::empty());
    }
    None
}

/// Outcome of the throwaway-device acquisition for a given environment:
/// context creation is checked first, then a window of the process is
/// required, then the full-screen creation attempt is used if it succeeded,
/// else the windowed retry; only when both attempts fail does acquisition
/// fail, with the second attempt's code.
pub open spec fn spec_get_d3d_device(env: D3D9Environment) -> Result<
    DeviceHandles,
    GetD3DDeviceError,
> {
    match env.d3d_created {
        None => Err(GetD3DDeviceError::D3DCreationFailed),
        Some(context) => match env.process_window {
            None => Err(GetD3DDeviceError::WindowNotFound),
            Some(_window) => match env.fullscreen_attempt {
                Ok(device) => Ok(DeviceHandles { context, device }),
                Err(_) => match env.windowed_attempt {
                    Ok(device) => Ok(DeviceHandles { context, device }),
                    Err(failure_code) => Err(
                        GetD3DDeviceError::DeviceCreationFailed { failure_code },
                    ),
                },
            },
        },
    }
}

/// Acquires a throwaway device solely to reach the interface's vtable:
/// decides, from the gathered outcomes, which handles the acquisition
/// produced or which step failed. On failure no handle is retained, so the
/// acquisition releases whatever it created on every exit path.
pub fn get_d3d_device(env: &D3D9Environment) -> (r: Result<DeviceHandles, GetD3DDeviceError>)
    ensures
        r == spec_get_d3d_device(*env),
{
    let context = match env.d3d_created {
        None => {
            return Err(GetD3DDeviceError::D3DCreationFailed);
        },
        Some(context) => context,
    };
    match env.process_window {
        None => {
            return Err(GetD3DDeviceError::WindowNotFound);
        },
        Some(_window) => {},
    }
    match env.fullscreen_attempt {
        Ok(device) => Ok(DeviceHandles { context, device }),
        Err(_) => match env.windowed_attempt {
            Ok(device) => Ok(DeviceHandles { context, device }),
            Err(failure_code) => Err(GetD3DDeviceError::DeviceCreationFailed { failure_code }),
        },
    }
}

/// The address of the slot of method `ordinal` in a vtable at
/// `vtable_base`, with `pointer_size` bytes per slot.
pub fn vmt_method_slot_address(vtable_base: usize, ordinal: usize, pointer_size: usize) -> (r:
    usize)
    requires
        vtable_base + ordinal * pointer_size <= usize::MAX,
    ensures
        r == vtable_base + ordinal * pointer_size,
{
    vtable_base + ordinal * pointer_size
}

/// Handle owning the state of one `EndScene` interception.
pub struct D3D9Hook {
    /// The interception is active.
    pub installed: bool,
    /// The rendering context acquired at install, released at uninstall.
    pub context: Option<u64>,
    /// The throwaway device acquired at install, released at uninstall.
    pub device: Option<u64>,
    /// The original `EndScene` address read from the vtable slot before it
    /// was overwritten; the path back to the unhooked routine.
    pub original_end_scene: Option<u64>,
}

impl D3D9Hook {
    /// An installed hook always holds the acquired handles and the original
    /// slot value; install establishes this and uninstall clears it.
    pub open spec fn wf(self) -> bool {
        self.installed ==> {
            &&& self.context is Some
            &&& self.device is Some
            &&& self.original_end_scene is Some
        }
    }

    /// A freshly constructed, never-installed hook.
    pub open spec fn spec_new() -> D3D9Hook {
        D3D9Hook { installed: false, context: None, device: None, original_end_scene: None }
    }

    pub fn new() -> (r: Self)
        ensures
            r == Self::spec_new(),
            !r.installed,
            r.wf(),
    {
        D3D9Hook { installed: false, context: None, device: None, original_end_scene: None }
    }

    pub fn is_installed(&self) -> (r: bool)
        ensures
            r == self.installed,
    {
        self.installed
    }

    /// The rendering context handle retained while installed.
    pub fn context(&self) -> (r: Option<u64>)
        ensures
            r == self.context,
    {
        self.context
    }

    /// The device handle retained while installed.
    pub fn device(&self) -> (r: Option<u64>)
        ensures
            r == self.device,
    {
        self.device
    }

    /// Replaces the callback that the interceptor invokes on each
    /// intercepted call.
    pub fn set_device_hook_callback<C>(registry: &mut CallbackRegistry<C>, callback: C)
        ensures
            *final(registry) == old(registry).spec_set(callback),
            final(registry).spec_current() == Some(callback),
    {
        registry.set(callback);
    }

    /// Whether the environment lets an install attempt get past its first
    /// check: the target module is loaded.
    pub fn is_hookable(env: &D3D9Environment) -> (r: bool)
        ensures
            r == env.module_present,
    {
        env.module_present
    }

    /// Outcome of `install` on a hook `pre` with vtable `vmt` under
    /// environment `env`: the hook afterwards, the vtable afterwards, and
    /// the result. Installing an installed hook, or failing any
    /// acquisition step, changes nothing.
    pub open spec fn spec_install(
        pre: D3D9Hook,
        vmt: Seq<u64>,
        env: D3D9Environment,
        interceptor: u64,
    ) -> (D3D9Hook, Seq<u64>, Result<(), InstallError<D3D9HookInstallError>>) {
        if pre.installed {
            (pre, vmt, Err(InstallError::AlreadyInstalled))
        } else if !env.module_present {
            (pre, vmt, Err(InstallError::Other(D3D9HookInstallError::ModuleNotFound)))
        } else {
            match spec_get_d3d_device(env) {
                Err(e) => (pre, vmt, Err(InstallError::Other(Self::spec_acquisition_error(e)))),
                Ok(handles) => (
                    D3D9Hook {
                        installed: true,
                        context: Some(handles.context),
                        device: Some(handles.device),
                        original_end_scene: Some(vmt[END_SCENE_SLOT as int]),
                    },
                    vmt.update(END_SCENE_SLOT as int, interceptor),
                    Ok(()),
                ),
            }
        }
    }

    /// The install error reported for a failed device acquisition.
    pub open spec fn spec_acquisition_error(e: GetD3DDeviceError) -> D3D9HookInstallError {
        match e {
            GetD3DDeviceError::D3DCreationFailed => D3D9HookInstallError::D3DCreationFailed,
            GetD3DDeviceError::WindowNotFound => D3D9HookInstallError::WindowNotFound,
            GetD3DDeviceError::DeviceCreationFailed {
                failure_code,
            } => D3D9HookInstallError::DeviceCreationFailed { failure_code },
        }
    }

    /// Installs the interception: verifies the target module is loaded,
    /// acquires a throwaway device to reach the vtable, preserves the
    /// original `EndScene` address from the slot, and redirects the slot to
    /// `interceptor`.
    ///
    /// `vmt` is the interface's vtable, one address per method slot in the
    /// fixed external layout; `interceptor` is the address calls through
    /// the slot are redirected to.
    pub fn install(&mut self, env: &D3D9Environment, vmt: &mut Vec<u64>, interceptor: u64) -> (r:
        Result<(), InstallError<D3D9HookInstallError>>)
        requires
            old(self).wf(),
            old(vmt)@.len() == VMT_SLOT_COUNT,
        ensures
            ({
                let (post, vmt_post, res) = Self::spec_install(
                    *old(self),
                    old(vmt)@,
                    *env,
                    interceptor,
                );
                &&& *final(self) == post
                &&& final(vmt)@ == vmt_post
                &&& r == res
            }),
            final(self).wf(),
            final(vmt)@.len() == VMT_SLOT_COUNT,
            old(self).installed ==> r == Err::<(), InstallError<D3D9HookInstallError>>(
                InstallError::AlreadyInstalled,
            ) && *final(self) == *old(self) && final(vmt)@ == old(vmt)@,
            r is Err ==> *final(self) == *old(self),
            r is Ok ==> {
                &&& final(self).installed
                &&& final(self).original_end_scene == Some(old(vmt)@[END_SCENE_SLOT as int])
                &&& final(vmt)@ == old(vmt)@.update(END_SCENE_SLOT as int, interceptor)
            },
    {
        if self.installed {
            return Err(InstallError::AlreadyInstalled);
        }
        if !env.module_present {
            return Err(InstallError::Other(D3D9HookInstallError::ModuleNotFound));
        }
        let handles = match get_d3d_device(env) {
            Ok(handles) => handles,
            Err(GetD3DDeviceError::D3DCreationFailed) => {
                return Err(InstallError::Other(D3D9HookInstallError::D3DCreationFailed));
            },
            Err(GetD3DDeviceError::WindowNotFound) => {
                return Err(InstallError::Other(D3D9HookInstallError::WindowNotFound));
            },
            Err(GetD3DDeviceError::DeviceCreationFailed { failure_code }) => {
                return Err(
                    InstallError::Other(D3D9HookInstallError::DeviceCreationFailed { failure_code }),
                );
            },
        };
        let original = vmt[END_SCENE_SLOT];
        vmt[END_SCENE_SLOT] = interceptor;
        self.context = Some(handles.context);
        self.device = Some(handles.device);
        self.original_end_scene = Some(original);
        self.installed = true;
        Ok(())
    }

    /// Outcome of `uninstall` on a hook `pre` with vtable `vmt`:
    /// uninstalling an uninstalled hook changes nothing; otherwise the slot
    /// gets the preserved original address back and the handles are
    /// released.
    pub open spec fn spec_uninstall(pre: D3D9Hook, vmt: Seq<u64>) -> (
        D3D9Hook,
        Seq<u64>,
        Result<(), UninstallError<D3D9HookUninstallError>>,
    ) {
        if !pre.installed {
            (pre, vmt, Err(UninstallError::NotInstalled))
        } else {
            (
                Self::spec_new(),
                vmt.update(END_SCENE_SLOT as int, pre.original_end_scene->0),
                Ok(()),
            )
        }
    }

    /// Uninstalls the interception: restores the preserved original
    /// `EndScene` address into the slot — re-establishing the pre-hook call
    /// path — then releases the retained device and context handles and
    /// marks the hook uninstalled.
    pub fn uninstall(&mut self, vmt: &mut Vec<u64>) -> (r: Result<
        (),
        UninstallError<D3D9HookUninstallError>,
    >)
        requires
            old(self).wf(),
            old(vmt)@.len() == VMT_SLOT_COUNT,
        ensures
            ({
                let (post, vmt_post, res) = Self::spec_uninstall(*old(self), old(vmt)@);
                &&& *final(self) == post
                &&& final(vmt)@ == vmt_post
                &&& r == res
            }),
            final(self).wf(),
            final(vmt)@.len() == VMT_SLOT_COUNT,
            !old(self).installed ==> r == Err::<(), UninstallError<D3D9HookUninstallError>>(
                UninstallError::NotInstalled,
            ) && *final(self) == *old(self) && final(vmt)@ == old(vmt)@,
            old(self).installed ==> {
                &&& r == Ok::<(), UninstallError<D3D9HookUninstallError>>(())
                &&& !final(self).installed
                &&& final(vmt)@ == old(vmt)@.update(
                    END_SCENE_SLOT as int,
                    old(self).original_end_scene->0,
                )
            },
    {
        if !self.installed {
            return Err(UninstallError::NotInstalled);
        }
        let original = match self.original_end_scene {
            Some(original) => original,
            None => {
                // Unreachable: wf guarantees an installed hook preserved the
                // original address.
                assert(false);
                0
            },
        };
        vmt[END_SCENE_SLOT] = original;
        self.device = None;
        self.context = None;
        self.original_end_scene = None;
        self.installed = false;
        Ok(())
    }
}

/// The intercepted interface instance as hook callbacks see it: the
/// sequence of callback values invoked on it, newest last.
pub struct DeviceState<C> {
    pub invocations: Vec<C>,
}

impl<C> DeviceState<C> {
    pub fn new() -> (r: Self)
        ensures
            r.invocations@ =~= Seq::<C>::empty(),
    {
        DeviceState { invocations: Vec::new() }
    }
}

/// The interceptor the `EndScene` slot is redirected to: invokes the
/// currently registered callback (if any) on the intercepted instance, then
/// forwards to the preserved original routine — whose outcome is
/// `original_result` — and returns that result unchanged.
///
/// The forward to the original routine is unconditional: nothing the
/// callback does can keep the intercepted call from completing.
pub fn end_scene_detour<C: Copy>(
    registry: &CallbackRegistry<C>,
    device: &mut DeviceState<C>,
    original_result: i32,
) -> (r: i32)
    ensures
        r == original_result,
        registry.spec_current() matches Some(c) ==> final(device).invocations@ == old(
            device,
        ).invocations@.push(c),
        registry.spec_current() is None ==> final(device).invocations@ == old(
            device,
        ).invocations@,
{
    match registry.current() {
        Some(callback) => {
            device.invocations.push(*callback);
        },
        None => {},
    }
    original_result
}

/// Law: installing an installed hook reports `AlreadyInstalled` and alters
/// neither the hook nor the vtable, so the active interception stays
/// exactly as the first install left it.
pub proof fn lemma_install_twice(
    h0: D3D9Hook,
    vmt0: Seq<u64>,
    env1: D3D9Environment,
    interceptor1: u64,
    env2: D3D9Environment,
    interceptor2: u64,
)
    requires
        D3D9Hook::spec_install(h0, vmt0, env1, interceptor1).2 is Ok,
    ensures
        ({
            let (h1, vmt1, _) = D3D9Hook::spec_install(h0, vmt0, env1, interceptor1);
            let (h2, vmt2, r2) = D3D9Hook::spec_install(h1, vmt1, env2, interceptor2);
            &&& r2 == Err::<(), InstallError<D3D9HookInstallError>>(InstallError::AlreadyInstalled)
            &&& h2 == h1
            &&& vmt2 == vmt1
        }),
{
}

/// Law: uninstalling an uninstalled hook — freshly constructed or already
/// uninstalled once — reports `NotInstalled` and changes nothing.
pub proof fn lemma_uninstall_twice(h0: D3D9Hook, vmt0: Seq<u64>)
    requires
        h0.installed,
    ensures
        ({
            let (h1, vmt1, r1) = D3D9Hook::spec_uninstall(h0, vmt0);
            let (h2, vmt2, r2) = D3D9Hook::spec_uninstall(h1, vmt1);
            &&& r1 == Ok::<(), UninstallError<D3D9HookUninstallError>>(())
            &&& r2 == Err::<(), UninstallError<D3D9HookUninstallError>>(
                UninstallError::NotInstalled,
            )
            &&& h2 == h1
            &&& vmt2 == vmt1
        }),
{
}

/// Law: uninstalling a freshly constructed, never-installed hook reports
/// `NotInstalled` and leaves the hook uninstalled and the vtable untouched.
pub proof fn lemma_uninstall_fresh(vmt0: Seq<u64>)
    ensures
        ({
            let (h1, vmt1, r1) = D3D9Hook::spec_uninstall(D3D9Hook::spec_new(), vmt0);
            &&& r1 == Err::<(), UninstallError<D3D9HookUninstallError>>(
                UninstallError::NotInstalled,
            )
            &&& h1 == D3D9Hook::spec_new()
            &&& !h1.installed
            &&& vmt1 == vmt0
        }),
{
}

/// Law: install, uninstall, install is a clean cycle. The first uninstall
/// restores the vtable exactly to its pre-hook state, and a second install
/// in an environment whose module is present and whose device acquisition
/// succeeds installs again in full: the slot is redirected and the same
/// original address is preserved.
pub proof fn lemma_reinstall_cycle(
    h0: D3D9Hook,
    vmt0: Seq<u64>,
    env1: D3D9Environment,
    interceptor1: u64,
    env2: D3D9Environment,
    interceptor2: u64,
)
    requires
        !h0.installed,
        END_SCENE_SLOT < vmt0.len(),
        D3D9Hook::spec_install(h0, vmt0, env1, interceptor1).2 is Ok,
        env2.module_present,
        spec_get_d3d_device(env2) is Ok,
    ensures
        ({
            let (h1, vmt1, _) = D3D9Hook::spec_install(h0, vmt0, env1, interceptor1);
            let (h2, vmt2, r2) = D3D9Hook::spec_uninstall(h1, vmt1);
            let (h3, vmt3, r3) = D3D9Hook::spec_install(h2, vmt2, env2, interceptor2);
            &&& r2 == Ok::<(), UninstallError<D3D9HookUninstallError>>(())
            &&& vmt2 == vmt0
            &&& r3 == Ok::<(), InstallError<D3D9HookInstallError>>(())
            &&& h3.installed
            &&& vmt3 == vmt0.update(END_SCENE_SLOT as int, interceptor2)
            &&& h3.original_end_scene == Some(vmt0[END_SCENE_SLOT as int])
        }),
{
    let (h1, vmt1, _) = D3D9Hook::spec_install(h0, vmt0, env1, interceptor1);
    let (_h2, vmt2, _r2) = D3D9Hook::spec_uninstall(h1, vmt1);
    assert(vmt2 =~= vmt0);
}

} // verus!
