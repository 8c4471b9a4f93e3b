//! Remote injection of a payload module into a foreign process.
//!
//! Injection is a fixed sequence of operating-system steps: resolve the
//! module path, open the target process, allocate a buffer inside it, write
//! the path into the buffer, resolve the loader entry point, and start a
//! remote thread at that entry point with the buffer as its argument. Each
//! step can fail, and each failure maps to its own error with no silent
//! fallback between steps.
//!
//! [`InjectionSession`] is the verified decision core of that sequence: it
//! holds the progress made so far, names through [`InjectAction`] the one
//! operating-system call the unverified runner must make next, and advances
//! on the outcome the runner hands back. Success of the whole sequence means
//! the remote thread was created — the load was triggered — not that the
//! payload finished attaching.

use vstd::prelude::*;

verus! {

/// Failure of an injection attempt; one variant per fallible step, in the
/// order the steps run.
#[derive(Debug, PartialEq, Eq, Structural, Clone, Copy)]
pub enum InjectDllIntoProcessError {
    /// The module path could not be canonicalized to an absolute path.
    DllPathCanonicalizationFailed,
    /// The canonical path could not be represented as a string.
    DllPathToStrFailed,
    /// The target process could not be opened with full access.
    OpenProcessFailed,
    /// No buffer for the path could be allocated in the target process.
    DllPathBufferAllocationFailed,
    /// Writing the path into the target process failed; carries the
    /// reported code.
    WritingProcessMemoryFailed { err_code: i32 },
    /// The loader library could not be found in the target.
    Kernel32NotFound,
    /// The load-module entry point could not be resolved in the loader
    /// library.
    LoadLibraryANotFound,
    /// The remote thread could not be created.
    FailedToCreateRemoteThread,
}

/// Progress of an injection session, one stage per pending step.
#[derive(Debug, PartialEq, Eq, Structural, Clone, Copy)]
pub enum InjectStage {
    ResolvingPath,
    OpeningProcess,
    AllocatingBuffer,
    WritingPath,
    ResolvingLoaderModule,
    ResolvingLoaderEntry,
    CreatingThread,
    Completed,
    Failed,
}

/// Outcome of resolving the payload module's path to an absolute string.
#[derive(Debug)]
pub enum PathResolution {
    /// The canonical absolute path, as bytes without a terminator.
    Resolved(Vec<u8>),
    /// The path does not exist or could not be canonicalized.
    CanonicalizationFailed,
    /// The canonical path is not representable as a string.
    NotUtf8,
}

/// The one operating-system call the runner must make next to advance a
/// session, or how the session ended.
#[derive(Debug, PartialEq, Eq, Structural, Clone, Copy)]
pub enum InjectAction {
    /// Canonicalize the module path.
    ResolvePath,
    /// Open the process with full access rights.
    OpenProcess { process_id: u32 },
    /// Allocate `size` bytes of writable, executable memory in the target.
    AllocateBuffer { size: usize },
    /// Write the terminated path bytes into the allocated buffer.
    WritePath { process: u64, buffer: u64 },
    /// Look up the loader library in the target's module set.
    ResolveLoaderModule,
    /// Resolve the load-module entry point from the loader library.
    ResolveLoaderEntry { module: u64 },
    /// Start a thread in the target at the loader entry, with the buffer
    /// holding the path as its argument.
    CreateRemoteThread { process: u64, entry: u64, argument: u64 },
    /// The sequence completed: the load was triggered.
    Finished,
    /// A step failed; the sequence stops without further calls.
    Abort,
}

/// One remote injection in progress: what has been acquired so far and
/// which step is pending. The handles are opaque addresses in or of the
/// target process.
#[derive(Debug)]
pub struct InjectionSession {
    /// The target process id the session was started for.
    pub process_id: u32,
    /// The pending step.
    pub stage: InjectStage,
    /// The canonical path bytes with their terminator, once resolved.
    pub path_buffer: Option<Vec<u8>>,
    /// Handle of the opened target process.
    pub process: Option<u64>,
    /// Address of the buffer allocated in the target.
    pub remote_buffer: Option<u64>,
    /// Handle of the loader library in the target.
    pub loader_module: Option<u64>,
    /// Address of the load-module entry point.
    pub loader_entry: Option<u64>,
    /// Handle of the created remote thread.
    pub thread: Option<u64>,
}

impl InjectionSession {
    /// Every stage holds exactly what the steps before it acquired: the
    /// earlier resources are present, the later ones are still absent.
    pub open spec fn wf(self) -> bool {
        &&& match self.stage {
            InjectStage::ResolvingPath => self.path_buffer is None && self.process is None
                && self.remote_buffer is None && self.loader_module is None
                && self.loader_entry is None && self.thread is None,
            InjectStage::OpeningProcess => self.path_buffer is Some && self.process is None
                && self.remote_buffer is None && self.loader_module is None
                && self.loader_entry is None && self.thread is None,
            InjectStage::AllocatingBuffer => self.path_buffer is Some && self.process is Some
                && self.remote_buffer is None && self.loader_module is None
                && self.loader_entry is None && self.thread is None,
            InjectStage::WritingPath => self.path_buffer is Some && self.process is Some
                && self.remote_buffer is Some && self.loader_module is None
                && self.loader_entry is None && self.thread is None,
            InjectStage::ResolvingLoaderModule => self.path_buffer is Some && self.process is Some
                && self.remote_buffer is Some && self.loader_module is None
                && self.loader_entry is None && self.thread is None,
            InjectStage::ResolvingLoaderEntry => self.path_buffer is Some && self.process is Some
                && self.remote_buffer is Some && self.loader_module is Some
                && self.loader_entry is None && self.thread is None,
            InjectStage::CreatingThread => self.path_buffer is Some && self.process is Some
                && self.remote_buffer is Some && self.loader_module is Some
                && self.loader_entry is Some && self.thread is None,
            InjectStage::Completed => self.path_buffer is Some && self.process is Some
                && self.remote_buffer is Some && self.loader_module is Some
                && self.loader_entry is Some && self.thread is Some,
            InjectStage::Failed => true,
        }
        &&& self.path_buffer matches Some(b) ==> b@.len() >= 1
    }

    /// Starts an injection session for `process_id`, with the path still to
    /// be resolved and nothing acquired.
    pub fn new(process_id: u32) -> (r: Self)
        ensures
            r.wf(),
            r.process_id == process_id,
            r.stage is ResolvingPath,
            r.path_buffer is None,
            r.process is None,
            r.remote_buffer is None,
            r.loader_module is None,
            r.loader_entry is None,
            r.thread is None,
    {
        InjectionSession {
            process_id,
            stage: InjectStage::ResolvingPath,
            path_buffer: None,
            process: None,
            remote_buffer: None,
            loader_module: None,
            loader_entry: None,
            thread: None,
        }
    }

    /// The operating-system call to make next, or how the session ended.
    /// Each action repeats the handles the runner must use, exactly as the
    /// session acquired them.
    pub fn next_action(&self) -> (r: InjectAction)
        requires
            self.wf(),
        ensures
            self.stage is ResolvingPath ==> r == InjectAction::ResolvePath,
            self.stage is OpeningProcess ==> r == (InjectAction::OpenProcess {
                process_id: self.process_id,
            }),
            self.stage is AllocatingBuffer ==> r == (InjectAction::AllocateBuffer {
                size: self.path_buffer->0@.len() as usize,
            }),
            self.stage is WritingPath ==> r == (InjectAction::WritePath {
                process: self.process->0,
                buffer: self.remote_buffer->0,
            }),
            self.stage is ResolvingLoaderModule ==> r == InjectAction::ResolveLoaderModule,
            self.stage is ResolvingLoaderEntry ==> r == (InjectAction::ResolveLoaderEntry {
                module: self.loader_module->0,
            }),
            self.stage is CreatingThread ==> r == (InjectAction::CreateRemoteThread {
                process: self.process->0,
                entry: self.loader_entry->0,
                argument: self.remote_buffer->0,
            }),
            self.stage is Completed ==> r == InjectAction::Finished,
            self.stage is Failed ==> r == InjectAction::Abort,
    {
        match self.stage {
            InjectStage::ResolvingPath => InjectAction::ResolvePath,
            InjectStage::OpeningProcess => InjectAction::OpenProcess {
                process_id: self.process_id,
            },
            InjectStage::AllocatingBuffer => {
                let size = match &self.path_buffer {
                    Some(buffer) => buffer.len(),
                    None => {
                        // Unreachable: wf guarantees the path is resolved
                        // by this stage.
                        assert(false);
                        0
                    },
                };
                InjectAction::AllocateBuffer { size }
            },
            InjectStage::WritingPath => InjectAction::WritePath {
                process: self.unwrap_handle(&self.process),
                buffer: self.unwrap_handle(&self.remote_buffer),
            },
            InjectStage::ResolvingLoaderModule => InjectAction::ResolveLoaderModule,
            InjectStage::ResolvingLoaderEntry => InjectAction::ResolveLoaderEntry {
                module: self.unwrap_handle(&self.loader_module),
            },
            InjectStage::CreatingThread => InjectAction::CreateRemoteThread {
                process: self.unwrap_handle(&self.process),
                entry: self.unwrap_handle(&self.loader_entry),
                argument: self.unwrap_handle(&self.remote_buffer),
            },
            InjectStage::Completed => InjectAction::Finished,
            InjectStage::Failed => InjectAction::Abort,
        }
    }

    /// Reads a handle that the current stage guarantees is present.
    fn unwrap_handle(&self, handle: &Option<u64>) -> (r: u64)
        requires
            *handle is Some,
        ensures
            r == handle->0,
    {
        match handle {
            Some(h) => *h,
            None => {
                // Unreachable by the precondition.
                assert(false);
                0
            },
        }
    }

    /// Records the outcome of resolving the module path. On success the
    /// terminator is appended and the session moves on to opening the
    /// process; either failure ends the session with its own error.
    ///
    /// A resolved path must be free of interior zero bytes — the terminated
    /// string could not represent it otherwise — and short enough for the
    /// terminator to fit.
    pub fn on_path_resolved(&mut self, resolution: PathResolution) -> (r: Result<
        (),
        InjectDllIntoProcessError,
    >)
        requires
            old(self).wf(),
            old(self).stage is ResolvingPath,
            resolution matches PathResolution::Resolved(p) ==> p@.len() + 1 <= usize::MAX && forall|
                i: int,
            | 0 <= i < p@.len() ==> p@[i] != 0,
        ensures
            final(self).wf(),
            final(self).process_id == old(self).process_id,
            resolution matches PathResolution::Resolved(p) ==> {
                &&& r == Ok::<(), InjectDllIntoProcessError>(())
                &&& final(self).stage is OpeningProcess
                &&& final(self).path_buffer matches Some(b) && b@ == p@.push(0u8)
            },
            resolution is CanonicalizationFailed ==> r == Err::<(), InjectDllIntoProcessError>(
                InjectDllIntoProcessError::DllPathCanonicalizationFailed,
            ) && final(self).stage is Failed,
            resolution is NotUtf8 ==> r == Err::<(), InjectDllIntoProcessError>(
                InjectDllIntoProcessError::DllPathToStrFailed,
            ) && final(self).stage is Failed,
            final(self).process == old(self).process,
            final(self).remote_buffer == old(self).remote_buffer,
            final(self).loader_module == old(self).loader_module,
            final(self).loader_entry == old(self).loader_entry,
            final(self).thread == old(self).thread,
    {
        match resolution {
            PathResolution::Resolved(mut path) => {
                path.push(0u8);
                self.path_buffer = Some(path);
                self.stage = InjectStage::OpeningProcess;
                Ok(())
            },
            PathResolution::CanonicalizationFailed => {
                self.stage = InjectStage::Failed;
                Err(InjectDllIntoProcessError::DllPathCanonicalizationFailed)
            },
            PathResolution::NotUtf8 => {
                self.stage = InjectStage::Failed;
                Err(InjectDllIntoProcessError::DllPathToStrFailed)
            },
        }
    }

    /// Records the outcome of opening the target process. `None` — the
    /// process does not exist or access was denied — ends the session with
    /// `OpenProcessFailed` before any remote allocation is requested.
    pub fn on_process_opened(&mut self, handle: Option<u64>) -> (r: Result<
        (),
        InjectDllIntoProcessError,
    >)
        requires
            old(self).wf(),
            old(self).stage is OpeningProcess,
        ensures
            final(self).wf(),
            final(self).process_id == old(self).process_id,
            handle matches Some(h) ==> {
                &&& r == Ok::<(), InjectDllIntoProcessError>(())
                &&& final(self).stage is AllocatingBuffer
                &&& final(self).process == Some(h)
            },
            handle is None ==> {
                &&& r == Err::<(), InjectDllIntoProcessError>(
                    InjectDllIntoProcessError::OpenProcessFailed,
                )
                &&& final(self).stage is Failed
                &&& final(self).process is None
                &&& final(self).remote_buffer is None
            },
            final(self).path_buffer == old(self).path_buffer,
            final(self).remote_buffer == old(self).remote_buffer,
            final(self).loader_module == old(self).loader_module,
            final(self).loader_entry == old(self).loader_entry,
            final(self).thread == old(self).thread,
    {
        match handle {
            Some(h) => {
                self.process = Some(h);
                self.stage = InjectStage::AllocatingBuffer;
                Ok(())
            },
            None => {
                self.stage = InjectStage::Failed;
                Err(InjectDllIntoProcessError::OpenProcessFailed)
            },
        }
    }

    /// Records the outcome of allocating the path buffer in the target.
    pub fn on_buffer_allocated(&mut self, buffer: Option<u64>) -> (r: Result<
        (),
        InjectDllIntoProcessError,
    >)
        requires
            old(self).wf(),
            old(self).stage is AllocatingBuffer,
        ensures
            final(self).wf(),
            final(self).process_id == old(self).process_id,
            buffer matches Some(b) ==> {
                &&& r == Ok::<(), InjectDllIntoProcessError>(())
                &&& final(self).stage is WritingPath
                &&& final(self).remote_buffer == Some(b)
            },
            buffer is None ==> r == Err::<(), InjectDllIntoProcessError>(
                InjectDllIntoProcessError::DllPathBufferAllocationFailed,
            ) && final(self).stage is Failed,
            final(self).path_buffer == old(self).path_buffer,
            final(self).process == old(self).process,
            final(self).loader_module == old(self).loader_module,
            final(self).loader_entry == old(self).loader_entry,
            final(self).thread == old(self).thread,
    {
        match buffer {
            Some(b) => {
                self.remote_buffer = Some(b);
                self.stage = InjectStage::WritingPath;
                Ok(())
            },
            None => {
                self.stage = InjectStage::Failed;
                Err(InjectDllIntoProcessError::DllPathBufferAllocationFailed)
            },
        }
    }

    /// Records the outcome of writing the path into the target, as the
    /// write call reports it: a zero return means the write failed, and the
    /// session ends carrying that code.
    pub fn on_path_written(&mut self, code: i32) -> (r: Result<(), InjectDllIntoProcessError>)
        requires
            old(self).wf(),
            old(self).stage is WritingPath,
        ensures
            final(self).wf(),
            final(self).process_id == old(self).process_id,
            code != 0 ==> r == Ok::<(), InjectDllIntoProcessError>(()) && final(self).stage
                is ResolvingLoaderModule,
            code == 0 ==> r == Err::<(), InjectDllIntoProcessError>(
                InjectDllIntoProcessError::WritingProcessMemoryFailed { err_code: code },
            ) && final(self).stage is Failed,
            final(self).path_buffer == old(self).path_buffer,
            final(self).process == old(self).process,
            final(self).remote_buffer == old(self).remote_buffer,
            final(self).loader_module == old(self).loader_module,
            final(self).loader_entry == old(self).loader_entry,
            final(self).thread == old(self).thread,
    {
        if code == 0 {
            self.stage = InjectStage::Failed;
            Err(InjectDllIntoProcessError::WritingProcessMemoryFailed { err_code: code })
        } else {
            self.stage = InjectStage::ResolvingLoaderModule;
            Ok(())
        }
    }

    /// Records the outcome of looking up the loader library in the target.
    pub fn on_loader_module(&mut self, module: Option<u64>) -> (r: Result<
        (),
        InjectDllIntoProcessError,
    >)
        requires
            old(self).wf(),
            old(self).stage is ResolvingLoaderModule,
        ensures
            final(self).wf(),
            final(self).process_id == old(self).process_id,
            module matches Some(m) ==> {
                &&& r == Ok::<(), InjectDllIntoProcessError>(())
                &&& final(self).stage is ResolvingLoaderEntry
                &&& final(self).loader_module == Some(m)
            },
            module is None ==> r == Err::<(), InjectDllIntoProcessError>(
                InjectDllIntoProcessError::Kernel32NotFound,
            ) && final(self).stage is Failed,
            final(self).path_buffer == old(self).path_buffer,
            final(self).process == old(self).process,
            final(self).remote_buffer == old(self).remote_buffer,
            final(self).loader_entry == old(self).loader_entry,
            final(self).thread == old(self).thread,
    {
        match module {
            Some(m) => {
                self.loader_module = Some(m);
                self.stage = InjectStage::ResolvingLoaderEntry;
                Ok(())
            },
            None => {
                self.stage = InjectStage::Failed;
                Err(InjectDllIntoProcessError::Kernel32NotFound)
            },
        }
    }

    /// Records the outcome of resolving the load-module entry point.
    pub fn on_loader_entry(&mut self, entry: Option<u64>) -> (r: Result<
        (),
        InjectDllIntoProcessError,
    >)
        requires
            old(self).wf(),
            old(self).stage is ResolvingLoaderEntry,
        ensures
            final(self).wf(),
            final(self).process_id == old(self).process_id,
            entry matches Some(e) ==> {
                &&& r == Ok::<(), InjectDllIntoProcessError>(())
                &&& final(self).stage is CreatingThread
                &&& final(self).loader_entry == Some(e)
            },
            entry is None ==> r == Err::<(), InjectDllIntoProcessError>(
                InjectDllIntoProcessError::LoadLibraryANotFound,
            ) && final(self).stage is Failed,
            final(self).path_buffer == old(self).path_buffer,
            final(self).process == old(self).process,
            final(self).remote_buffer == old(self).remote_buffer,
            final(self).loader_module == old(self).loader_module,
            final(self).thread == old(self).thread,
    {
        match entry {
            Some(e) => {
                self.loader_entry = Some(e);
                self.stage = InjectStage::CreatingThread;
                Ok(())
            },
            None => {
                self.stage = InjectStage::Failed;
                Err(InjectDllIntoProcessError::LoadLibraryANotFound)
            },
        }
    }

    /// Records the outcome of creating the remote thread. On success the
    /// sequence is complete: the load was triggered, nothing more is
    /// verified about the payload's own progress.
    pub fn on_thread_created(&mut self, thread: Option<u64>) -> (r: Result<
        (),
        InjectDllIntoProcessError,
    >)
        requires
            old(self).wf(),
            old(self).stage is CreatingThread,
        ensures
            final(self).wf(),
            final(self).process_id == old(self).process_id,
            thread matches Some(t) ==> {
                &&& r == Ok::<(), InjectDllIntoProcessError>(())
                &&& final(self).stage is Completed
                &&& final(self).thread == Some(t)
            },
            thread is None ==> r == Err::<(), InjectDllIntoProcessError>(
                InjectDllIntoProcessError::FailedToCreateRemoteThread,
            ) && final(self).stage is Failed,
            final(self).path_buffer == old(self).path_buffer,
            final(self).process == old(self).process,
            final(self).remote_buffer == old(self).remote_buffer,
            final(self).loader_module == old(self).loader_module,
            final(self).loader_entry == old(self).loader_entry,
    {
        match thread {
            Some(t) => {
                self.thread = Some(t);
                self.stage = InjectStage::Completed;
                Ok(())
            },
            None => {
                self.stage = InjectStage::Failed;
                Err(InjectDllIntoProcessError::FailedToCreateRemoteThread)
            },
        }
    }
}

#[verifier::external_type_specification]
#[verifier::external_body]
pub struct ExSystem(sysinfo::System);

/// Relies on sysinfo::System::new_all: builds a snapshot of the running
/// system with everything loaded. What it holds depends on the machine, so
/// nothing is promised of it.
#[verifier::external_body]
fn system_new_all() -> sysinfo::System {
    sysinfo::System::new_all()
}

/// Relies on sysinfo::System::refresh_all: refreshes everything in the
/// snapshot, removing dead processes. The refreshed contents depend on the
/// machine, so nothing is promised of them.
#[verifier::external_body]
fn system_refresh_all(system: &mut sysinfo::System) {
    system.refresh_all();
}

/// Relies on sysinfo::System::processes: hands out the snapshot's process
/// table, each entry reduced to its id and name. The table and the order
/// the entries come out in depend on the machine, so nothing is promised of
/// the result.
#[verifier::external_body]
fn system_process_list(system: &sysinfo::System) -> (r: Vec<(u32, String)>) {
    system.processes().iter().map(
        |entry: (&sysinfo::Pid, &sysinfo::Process)| (
            entry.0.as_u32(),
            entry.1.name().to_string_lossy().into_owned(),
        ),
    ).collect()
}

/// The id of the first process in `processes` whose name equals `name`
/// exactly, if any.
pub open spec fn spec_find_pid(processes: Seq<(u32, String)>, name: Seq<char>) -> Option<u32>
    decreases processes.len(),
{
    if processes.len() == 0 {
        None
    } else if processes[0].1@ == name {
        Some(processes[0].0)
    } else {
        spec_find_pid(processes.skip(1), name)
    }
}

proof fn lemma_find_pid_step(processes: Seq<(u32, String)>, name: Seq<char>, i: int)
    requires
        0 <= i < processes.len(),
        processes[i].1@ != name,
    ensures
        spec_find_pid(processes.skip(i), name) == spec_find_pid(processes.skip(i + 1), name),
{
    assert(processes.skip(i)[0] == processes[i]);
    assert(processes.skip(i).skip(1) =~= processes.skip(i + 1));
}

/// Walks a process list and returns the id of the first entry whose name
/// matches `process_name` exactly, case sensitively.
pub fn find_pid_in_list(processes: &Vec<(u32, String)>, process_name: &str) -> (r: Option<u32>)
    ensures
        r == spec_find_pid(processes@, process_name@),
{
    let name: String = process_name.to_owned();
    let n = processes.len();
    let mut i: usize = 0;
    proof {
        assert(processes@.skip(0) =~= processes@);
    }
    while i < n
        invariant
            n == processes@.len(),
            i <= n,
            name@ == process_name@,
            spec_find_pid(processes@, process_name@) == spec_find_pid(
                processes@.skip(i as int),
                process_name@,
            ),
        decreases n - i,
    {
        if processes[i].1 == name {
            assert(processes@.skip(i as int)[0] == processes@[i as int]);
            return Some(processes[i].0);
        }
        proof {
            lemma_find_pid_step(processes@, process_name@, i as int);
        }
        i += 1;
    }
    proof {
        assert(processes@.skip(n as int) =~= Seq::<(u32, String)>::empty());
    }
    None
}

/// Finds the id of a running process by its exact, case-sensitive name:
/// takes a fresh snapshot of the system's process table and returns the
/// first entry matching `process_name`. Which processes the snapshot holds,
/// and in which order equal names are met, depends on the machine at the
/// moment of the call.
pub fn find_process_id_by_process_name(process_name: &str) -> Option<u32> {
    let mut system = system_new_all();
    system_refresh_all(&mut system);
    let processes = system_process_list(&system);
    find_pid_in_list(&processes, process_name)
}

} // verus!
