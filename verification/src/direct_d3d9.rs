//! Interception of `EndScene` by direct overwrite of a vtable entry found
//! through a pattern scan.
//!
//! Where the vtable interception of [`crate::d3d9_hook`] reaches the table
//! through a live interface instance, this variant locates the table inside
//! the loaded module's own image: it scans the image for a known byte
//! pattern, takes the vtable pointer embedded right after the matched
//! opcode bytes, and patches the pointer-wide entry of `EndScene` in place.
//! The entry's original bytes are preserved on install and written back on
//! uninstall, restoring the pre-hook call path.
//!
//! The outcomes of the operating-system steps — module lookup and the two
//! page-protection changes around the write — enter through
//! [`DirectD3D9Environment`]; the module's readable image enters as a byte
//! vector, so the locate-and-patch logic is verified for every outcome.

use vstd::prelude::*;

use crate::hooks::{InstallError, UninstallError};
use crate::memory::{pattern_scan, spec_pattern_scan};

verus! {

/// Offset from a pattern match to the vtable pointer embedded after the
/// matched opcode bytes.
pub const VMT_POINTER_OFFSET: usize = 2;

/// Byte offset of the `EndScene` entry from the embedded vtable pointer.
pub const END_SCENE_BYTE_OFFSET: usize = 42;

/// Width in bytes of one vtable entry: a function pointer.
pub const POINTER_WIDTH: usize = 4;

/// Bytes that must remain in the image behind a pattern match so the
/// patched entry lies fully inside it; the scan stops this far before the
/// image's end.
pub const SCAN_TAIL_MARGIN: usize = VMT_POINTER_OFFSET + END_SCENE_BYTE_OFFSET + POINTER_WIDTH;

/// Failure of an install attempt, beyond being already installed.
#[derive(Debug, PartialEq, Eq, Structural, Clone, Copy)]
pub enum DirectD3D9InstallError {
    /// The target module is not loaded in the process.
    ModuleNotFound,
    /// The module's image contains no match of the vtable pattern.
    PatternNotFound,
    /// The page protection of the vtable entry could not be opened for
    /// writing.
    VirtualProtectVMT,
    /// The page protection of the vtable entry could not be restored after
    /// the write.
    VirtualProtectVMTRestore,
}

/// Failure of an uninstall attempt, beyond not being installed. Kept for
/// hook-specific teardown failures; the verified transitions never produce
/// it.
#[derive(Debug, PartialEq, Eq, Structural, Clone, Copy)]
pub enum DirectD3D9UninstallError {
    Other,
}

/// Outcomes of the operating-system steps an install attempt depends on,
/// gathered by the unverified runner.
#[derive(Debug, PartialEq, Eq, Structural, Clone, Copy)]
pub struct DirectD3D9Environment {
    /// The target module is loaded in the process.
    pub module_present: bool,
    /// Opening the vtable entry's page protection for writing succeeds.
    pub unprotect_succeeds: bool,
    /// Restoring the previous page protection afterwards succeeds.
    pub reprotect_succeeds: bool,
}

/// The byte pattern that locates the vtable inside the module image:
/// two store instructions whose four-byte operands are wildcards.
pub open spec fn spec_vmt_pattern() -> Seq<Option<u8>> {
    seq![
        Some(0xC7u8),
        Some(0x06u8),
        None,
        None,
        None,
        None,
        Some(0x89u8),
        Some(0x86u8),
        None,
        None,
        None,
        None,
        Some(0x89u8),
        Some(0x86u8),
    ]
}

/// Builds the vtable-locating pattern.
fn vmt_pattern() -> (r: Vec<Option<u8>>)
    ensures
        r@ == spec_vmt_pattern(),
{
    let r: Vec<Option<u8>> = vec![
        Some(0xC7u8),
        Some(0x06u8),
        None,
        None,
        None,
        None,
        Some(0x89u8),
        Some(0x86u8),
        None,
        None,
        None,
        None,
        Some(0x89u8),
        Some(0x86u8),
    ];
    proof {
        assert(r@ =~= spec_vmt_pattern());
    }
    r
}

/// Number of image offsets the scan tries: all offsets that leave the tail
/// margin behind them.
pub open spec fn spec_scan_length(image_len: int) -> int {
    if image_len >= SCAN_TAIL_MARGIN {
        image_len - SCAN_TAIL_MARGIN
    } else {
        0
    }
}

/// The interceptor routine the patched entry points to.
pub fn end_scene_hook() -> (r: i32)
    ensures
        r == 0,
{
    0
}

/// Handle owning the state of one direct-overwrite interception.
pub struct DirectD3D9 {
    /// The interception is active.
    pub installed: bool,
    /// Image offset of the patched `EndScene` entry.
    pub slot_offset: Option<usize>,
    /// The entry's original bytes, written back on uninstall.
    pub original_bytes: Option<(u8, u8, u8, u8)>,
}

impl DirectD3D9 {
    /// An installed hook always knows the patched entry and its original
    /// bytes; install establishes this and uninstall clears it.
    pub open spec fn wf(self) -> bool {
        self.installed ==> {
            &&& self.slot_offset is Some
            &&& self.original_bytes is Some
        }
    }

    /// A freshly constructed, never-installed hook.
    pub open spec fn spec_new() -> DirectD3D9 {
        DirectD3D9 { installed: false, slot_offset: None, original_bytes: None }
    }

    pub fn new() -> (r: Self)
        ensures
            r == Self::spec_new(),
            !r.installed,
            r.wf(),
    {
        DirectD3D9 { installed: false, slot_offset: None, original_bytes: None }
    }

    pub fn is_installed(&self) -> (r: bool)
        ensures
            r == self.installed,
    {
        self.installed
    }

    /// Outcome of `install` on a hook `pre` over the module image `image`
    /// under environment `env`, patching the entry with the four bytes of
    /// `hook_ptr`: the hook afterwards, the image afterwards, and the
    /// result.
    ///
    /// A failed restore of the page protection reports
    /// `VirtualProtectVMTRestore` after the entry has already been patched:
    /// the image keeps the write, but the hook is not marked installed.
    pub open spec fn spec_install(
        pre: DirectD3D9,
        image: Seq<u8>,
        env: DirectD3D9Environment,
        hook_ptr: Seq<u8>,
    ) -> (DirectD3D9, Seq<u8>, Result<(), InstallError<DirectD3D9InstallError>>) {
        if pre.installed {
            (pre, image, Err(InstallError::AlreadyInstalled))
        } else if !env.module_present {
            (pre, image, Err(InstallError::Other(DirectD3D9InstallError::ModuleNotFound)))
        } else {
            match spec_pattern_scan(image, spec_vmt_pattern(), spec_scan_length(image.len() as int)) {
                None => (
                    pre,
                    image,
                    Err(InstallError::Other(DirectD3D9InstallError::PatternNotFound)),
                ),
                Some(hit) => {
                    if !env.unprotect_succeeds {
                        (
                            pre,
                            image,
                            Err(InstallError::Other(DirectD3D9InstallError::VirtualProtectVMT)),
                        )
                    } else {
                        let slot = hit + VMT_POINTER_OFFSET + END_SCENE_BYTE_OFFSET;
                        let patched = image.update(slot, hook_ptr[0]).update(
                            slot + 1,
                            hook_ptr[1],
                        ).update(slot + 2, hook_ptr[2]).update(slot + 3, hook_ptr[3]);
                        if !env.reprotect_succeeds {
                            (
                                pre,
                                patched,
                                Err(
                                    InstallError::Other(
                                        DirectD3D9InstallError::VirtualProtectVMTRestore,
                                    ),
                                ),
                            )
                        } else {
                            (
                                DirectD3D9 {
                                    installed: true,
                                    slot_offset: Some(slot as usize),
                                    original_bytes: Some(
                                        (
                                            image[slot],
                                            image[slot + 1],
                                            image[slot + 2],
                                            image[slot + 3],
                                        ),
                                    ),
                                },
                                patched,
                                Ok(()),
                            )
                        }
                    }
                },
            }
        }
    }

    /// Installs the interception: verifies the target module is loaded,
    /// locates the vtable by scanning the module image for the known
    /// pattern, opens the entry's page protection, overwrites the
    /// pointer-wide `EndScene` entry with `hook_ptr_bytes` while preserving
    /// its original bytes, and restores the protection.
    pub fn install(
        &mut self,
        env: &DirectD3D9Environment,
        module_image: &mut Vec<u8>,
        hook_ptr_bytes: &[u8],
    ) -> (r: Result<(), InstallError<DirectD3D9InstallError>>)
        requires
            old(self).wf(),
            hook_ptr_bytes@.len() == POINTER_WIDTH,
        ensures
            ({
                let (post, image_post, res) = Self::spec_install(
                    *old(self),
                    old(module_image)@,
                    *env,
                    hook_ptr_bytes@,
                );
                &&& *final(self) == post
                &&& final(module_image)@ == image_post
                &&& r == res
            }),
            final(self).wf(),
            final(module_image)@.len() == old(module_image)@.len(),
            old(self).installed ==> r == Err::<(), InstallError<DirectD3D9InstallError>>(
                InstallError::AlreadyInstalled,
            ) && *final(self) == *old(self) && final(module_image)@ == old(module_image)@,
            r is Err ==> *final(self) == *old(self),
            r is Ok ==> final(self).installed,
    {
        if self.installed {
            return Err(InstallError::AlreadyInstalled);
        }
        if !env.module_present {
            return Err(InstallError::Other(DirectD3D9InstallError::ModuleNotFound));
        }
        let image_len = module_image.len();
        let scan_len = if image_len >= SCAN_TAIL_MARGIN {
            image_len - SCAN_TAIL_MARGIN
        } else {
            0
        };
        let pattern = vmt_pattern();
        let hit = match pattern_scan(0, module_image.as_slice(), scan_len, pattern.as_slice()) {
            Some(a) => a,
            None => {
                return Err(InstallError::Other(DirectD3D9InstallError::PatternNotFound));
            },
        };
        proof {
            crate::memory::lemma_pattern_scan_hit(module_image@, spec_vmt_pattern(), scan_len as int);
        }
        if !env.unprotect_succeeds {
            return Err(InstallError::Other(DirectD3D9InstallError::VirtualProtectVMT));
        }
        let slot = hit + VMT_POINTER_OFFSET + END_SCENE_BYTE_OFFSET;
        let b0 = module_image[slot];
        let b1 = module_image[slot + 1];
        let b2 = module_image[slot + 2];
        let b3 = module_image[slot + 3];
        module_image[slot] = hook_ptr_bytes[0];
        module_image[slot + 1] = hook_ptr_bytes[1];
        module_image[slot + 2] = hook_ptr_bytes[2];
        module_image[slot + 3] = hook_ptr_bytes[3];
        proof {
            let pre = old(module_image)@;
            let s = slot as int;
            assert(scan_len as int == spec_scan_length(pre.len() as int));
            assert(module_image@ =~= pre.update(s, hook_ptr_bytes@[0]).update(
                s + 1,
                hook_ptr_bytes@[1],
            ).update(s + 2, hook_ptr_bytes@[2]).update(s + 3, hook_ptr_bytes@[3]));
        }
        if !env.reprotect_succeeds {
            return Err(InstallError::Other(DirectD3D9InstallError::VirtualProtectVMTRestore));
        }
        self.slot_offset = Some(slot);
        self.original_bytes = Some((b0, b1, b2, b3));
        self.installed = true;
        Ok(())
    }

    /// Outcome of `uninstall` on a hook `pre` over the module image:
    /// uninstalling an uninstalled hook changes nothing; otherwise the
    /// patched entry gets its preserved original bytes back.
    pub open spec fn spec_uninstall(pre: DirectD3D9, image: Seq<u8>) -> (
        DirectD3D9,
        Seq<u8>,
        Result<(), UninstallError<DirectD3D9UninstallError>>,
    ) {
        if !pre.installed {
            (pre, image, Err(UninstallError::NotInstalled))
        } else {
            let slot = pre.slot_offset->0 as int;
            let (b0, b1, b2, b3) = pre.original_bytes->0;
            (
                Self::spec_new(),
                image.update(slot, b0).update(slot + 1, b1).update(slot + 2, b2).update(
                    slot + 3,
                    b3,
                ),
                Ok(()),
            )
        }
    }

    /// Uninstalls the interception: writes the preserved original bytes
    /// back into the patched entry — restoring the pre-hook call path —
    /// and marks the hook uninstalled.
    ///
    /// `module_image` must be the image that `install` patched, so the
    /// remembered entry still lies inside it.
    pub fn uninstall(&mut self, module_image: &mut Vec<u8>) -> (r: Result<
        (),
        UninstallError<DirectD3D9UninstallError>,
    >)
        requires
            old(self).wf(),
            old(self).installed ==> old(self).slot_offset->0 + POINTER_WIDTH <= old(
                module_image,
            )@.len(),
        ensures
            ({
                let (post, image_post, res) = Self::spec_uninstall(*old(self), old(module_image)@);
                &&& *final(self) == post
                &&& final(module_image)@ == image_post
                &&& r == res
            }),
            final(self).wf(),
            final(module_image)@.len() == old(module_image)@.len(),
            !old(self).installed ==> r == Err::<(), UninstallError<DirectD3D9UninstallError>>(
                UninstallError::NotInstalled,
            ) && *final(self) == *old(self) && final(module_image)@ == old(module_image)@,
            old(self).installed ==> r == Ok::<(), UninstallError<DirectD3D9UninstallError>>(())
                && !final(self).installed,
    {
        if !self.installed {
            return Err(UninstallError::NotInstalled);
        }
        let image_len = module_image.len();
        let slot = match self.slot_offset {
            Some(slot) => slot,
            None => {
                // Unreachable: wf guarantees an installed hook remembers the
                // patched entry.
                assert(false);
                0
            },
        };
        proof {
            assert(slot + POINTER_WIDTH <= image_len);
        }
        let (b0, b1, b2, b3) = match self.original_bytes {
            Some(bytes) => bytes,
            None => {
                // Unreachable: wf guarantees an installed hook preserved the
                // original bytes.
                assert(false);
                (0, 0, 0, 0)
            },
        };
        module_image[slot] = b0;
        module_image[slot + 1] = b1;
        module_image[slot + 2] = b2;
        module_image[slot + 3] = b3;
        self.slot_offset = None;
        self.original_bytes = None;
        self.installed = false;
        Ok(())
    }
}

/// Law: a successful install followed by uninstall restores the module
/// image exactly to its pre-hook state and leaves the hook uninstalled.
pub proof fn lemma_uninstall_restores_image(
    h0: DirectD3D9,
    image0: Seq<u8>,
    env: DirectD3D9Environment,
    hook_ptr: Seq<u8>,
)
    requires
        !h0.installed,
        image0.len() <= usize::MAX,
        DirectD3D9::spec_install(h0, image0, env, hook_ptr).2 is Ok,
    ensures
        ({
            let (h1, image1, _) = DirectD3D9::spec_install(h0, image0, env, hook_ptr);
            let (h2, image2, r2) = DirectD3D9::spec_uninstall(h1, image1);
            &&& r2 == Ok::<(), UninstallError<DirectD3D9UninstallError>>(())
            &&& image2 == image0
            &&& !h2.installed
            &&& h2 == DirectD3D9::spec_new()
        }),
{
    crate::memory::lemma_pattern_scan_hit(
        image0,
        spec_vmt_pattern(),
        spec_scan_length(image0.len() as int),
    );
    let (h1, image1, _) = DirectD3D9::spec_install(h0, image0, env, hook_ptr);
    let (_h2, image2, _r2) = DirectD3D9::spec_uninstall(h1, image1);
    assert(image2 =~= image0);
}

/// Law: installing an installed hook reports `AlreadyInstalled` and alters
/// neither the hook nor the module image.
pub proof fn lemma_direct_install_twice(
    h0: DirectD3D9,
    image0: Seq<u8>,
    env1: DirectD3D9Environment,
    hook_ptr1: Seq<u8>,
    env2: DirectD3D9Environment,
    hook_ptr2: Seq<u8>,
)
    requires
        DirectD3D9::spec_install(h0, image0, env1, hook_ptr1).2 is Ok,
    ensures
        ({
            let (h1, image1, _) = DirectD3D9::spec_install(h0, image0, env1, hook_ptr1);
            let (h2, image2, r2) = DirectD3D9::spec_install(h1, image1, env2, hook_ptr2);
            &&& r2 == Err::<(), InstallError<DirectD3D9InstallError>>(
                InstallError::AlreadyInstalled,
            )
            &&& h2 == h1
            &&& image2 == image1
        }),
{
}

} // verus!
