//! Shared interface of every interception hook: the two-state
//! install/uninstall protocol and its error types.
//!
//! A hook is a handle over one interception. It is either uninstalled or
//! installed; `install` moves it from the first state to the second and
//! `uninstall` moves it back. Installing an installed hook and uninstalling
//! an uninstalled one are rejected without touching the hook.

use vstd::prelude::*;

verus! {

/// Failure of an `install` call: the hook was already installed, or the
/// hook-specific step named by `Other` failed.
#[derive(Debug, PartialEq, Eq, Structural)]
pub enum InstallError<T> {
    AlreadyInstalled,
    Other(T),
}

/// Failure of an `uninstall` call: the hook was not installed, or the
/// hook-specific step named by `Other` failed.
#[derive(Debug, PartialEq, Eq, Structural)]
pub enum UninstallError<T> {
    NotInstalled,
    Other(T),
}

/// The install/uninstall protocol of a hook handle, for payloads to
/// implement. `TInstallError` and `TUninstallError` are the hook-specific
/// error types carried by `InstallError::Other` and `UninstallError::Other`.
pub trait Hook<TInstallError, TUninstallError>: Sized {
    fn is_installed(&self) -> bool;

    fn install(&mut self) -> Result<(), InstallError<TInstallError>>;

    fn uninstall(&mut self) -> Result<(), UninstallError<TUninstallError>>;
}

/// Whether the module a hook targets is loaded in the current process, so
/// that installing the hook can succeed at all.
pub trait Hookable {
    fn is_hookable() -> bool;
}

} // verus!
