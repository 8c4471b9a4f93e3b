use elertan_cheat_base::injection::{
    find_pid_in_list, InjectAction, InjectDllIntoProcessError, InjectStage, InjectionSession,
    PathResolution,
};

fn path_bytes() -> Vec<u8> {
    b"C:\\payloads\\overlay.dll".to_vec()
}

#[test]
fn inject_open_failure_performs_no_remote_allocation() {
    // A process id that does not exist: opening fails, the session ends
    // with OpenProcessFailed, and no allocation was ever requested.
    let mut session = InjectionSession::new(424_242);
    let mut actions: Vec<InjectAction> = Vec::new();

    actions.push(session.next_action());
    assert_eq!(session.on_path_resolved(PathResolution::Resolved(path_bytes())), Ok(()));
    actions.push(session.next_action());
    let result = session.on_process_opened(None);
    assert_eq!(result, Err(InjectDllIntoProcessError::OpenProcessFailed));
    actions.push(session.next_action());

    assert_eq!(
        actions,
        vec![
            InjectAction::ResolvePath,
            InjectAction::OpenProcess { process_id: 424_242 },
            InjectAction::Abort,
        ]
    );
    assert!(!actions.iter().any(|a| matches!(a, InjectAction::AllocateBuffer { .. })));
    assert_eq!(session.remote_buffer, None);
    assert_eq!(session.stage, InjectStage::Failed);
}

#[test]
fn inject_success_path_runs_every_step_in_order() {
    let path = path_bytes();
    let mut session = InjectionSession::new(7);

    assert_eq!(session.next_action(), InjectAction::ResolvePath);
    assert_eq!(session.on_path_resolved(PathResolution::Resolved(path.clone())), Ok(()));

    assert_eq!(session.next_action(), InjectAction::OpenProcess { process_id: 7 });
    assert_eq!(session.on_process_opened(Some(0x10)), Ok(()));

    // The buffer must hold the path plus its terminator.
    assert_eq!(session.next_action(), InjectAction::AllocateBuffer { size: path.len() + 1 });
    assert_eq!(session.on_buffer_allocated(Some(0x20)), Ok(()));

    assert_eq!(session.next_action(), InjectAction::WritePath { process: 0x10, buffer: 0x20 });
    assert_eq!(session.on_path_written(1), Ok(()));

    assert_eq!(session.next_action(), InjectAction::ResolveLoaderModule);
    assert_eq!(session.on_loader_module(Some(0x30)), Ok(()));

    assert_eq!(session.next_action(), InjectAction::ResolveLoaderEntry { module: 0x30 });
    assert_eq!(session.on_loader_entry(Some(0x40)), Ok(()));

    assert_eq!(
        session.next_action(),
        InjectAction::CreateRemoteThread { process: 0x10, entry: 0x40, argument: 0x20 }
    );
    assert_eq!(session.on_thread_created(Some(0x50)), Ok(()));

    assert_eq!(session.next_action(), InjectAction::Finished);
    assert_eq!(session.stage, InjectStage::Completed);

    let buffer = session.path_buffer.as_ref().unwrap();
    assert_eq!(buffer.len(), path.len() + 1);
    assert_eq!(buffer[buffer.len() - 1], 0);
    assert_eq!(&buffer[..path.len()], &path[..]);
}

#[test]
fn inject_path_canonicalization_failure() {
    let mut session = InjectionSession::new(1);
    assert_eq!(
        session.on_path_resolved(PathResolution::CanonicalizationFailed),
        Err(InjectDllIntoProcessError::DllPathCanonicalizationFailed)
    );
    assert_eq!(session.next_action(), InjectAction::Abort);
}

#[test]
fn inject_path_not_stringifiable_failure() {
    let mut session = InjectionSession::new(1);
    assert_eq!(
        session.on_path_resolved(PathResolution::NotUtf8),
        Err(InjectDllIntoProcessError::DllPathToStrFailed)
    );
    assert_eq!(session.next_action(), InjectAction::Abort);
}

#[test]
fn inject_allocation_failure() {
    let mut session = InjectionSession::new(1);
    session.on_path_resolved(PathResolution::Resolved(path_bytes())).unwrap();
    session.on_process_opened(Some(0x10)).unwrap();
    assert_eq!(
        session.on_buffer_allocated(None),
        Err(InjectDllIntoProcessError::DllPathBufferAllocationFailed)
    );
    assert_eq!(session.next_action(), InjectAction::Abort);
}

#[test]
fn inject_write_failure_carries_reported_code() {
    let mut session = InjectionSession::new(1);
    session.on_path_resolved(PathResolution::Resolved(path_bytes())).unwrap();
    session.on_process_opened(Some(0x10)).unwrap();
    session.on_buffer_allocated(Some(0x20)).unwrap();
    assert_eq!(
        session.on_path_written(0),
        Err(InjectDllIntoProcessError::WritingProcessMemoryFailed { err_code: 0 })
    );
    assert_eq!(session.next_action(), InjectAction::Abort);
}

#[test]
fn inject_loader_module_failure() {
    let mut session = InjectionSession::new(1);
    session.on_path_resolved(PathResolution::Resolved(path_bytes())).unwrap();
    session.on_process_opened(Some(0x10)).unwrap();
    session.on_buffer_allocated(Some(0x20)).unwrap();
    session.on_path_written(1).unwrap();
    assert_eq!(
        session.on_loader_module(None),
        Err(InjectDllIntoProcessError::Kernel32NotFound)
    );
    assert_eq!(session.next_action(), InjectAction::Abort);
}

#[test]
fn inject_loader_entry_failure() {
    let mut session = InjectionSession::new(1);
    session.on_path_resolved(PathResolution::Resolved(path_bytes())).unwrap();
    session.on_process_opened(Some(0x10)).unwrap();
    session.on_buffer_allocated(Some(0x20)).unwrap();
    session.on_path_written(1).unwrap();
    session.on_loader_module(Some(0x30)).unwrap();
    assert_eq!(
        session.on_loader_entry(None),
        Err(InjectDllIntoProcessError::LoadLibraryANotFound)
    );
    assert_eq!(session.next_action(), InjectAction::Abort);
}

#[test]
fn inject_thread_creation_failure() {
    let mut session = InjectionSession::new(1);
    session.on_path_resolved(PathResolution::Resolved(path_bytes())).unwrap();
    session.on_process_opened(Some(0x10)).unwrap();
    session.on_buffer_allocated(Some(0x20)).unwrap();
    session.on_path_written(1).unwrap();
    session.on_loader_module(Some(0x30)).unwrap();
    session.on_loader_entry(Some(0x40)).unwrap();
    assert_eq!(
        session.on_thread_created(None),
        Err(InjectDllIntoProcessError::FailedToCreateRemoteThread)
    );
    assert_eq!(session.next_action(), InjectAction::Abort);
}

#[test]
fn find_pid_matches_exactly_and_case_sensitively() {
    let processes: Vec<(u32, String)> = vec![
        (100, "explorer.exe".to_string()),
        (200, "Notepad.exe".to_string()),
        (300, "notepad.exe".to_string()),
        (400, "notepad.exe".to_string()),
    ];
    assert_eq!(find_pid_in_list(&processes, "notepad.exe"), Some(300));
    assert_eq!(find_pid_in_list(&processes, "Notepad.exe"), Some(200));
    assert_eq!(find_pid_in_list(&processes, "notepad"), None);
    assert_eq!(find_pid_in_list(&Vec::new(), "notepad.exe"), None);
}
