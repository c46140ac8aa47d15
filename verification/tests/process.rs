//! Processes: forwarding, killing, groups, jobs, tasks.

use android_emulator::error::EmulatorError;
use android_emulator::log::LogLevel;
use android_emulator::process::{
    forward_step, ForwardAction, ForwardEvent, KillAction, KillEvent, Killing, OwnedProcess,
};
use android_emulator::unix::EmulatorProcessGroup;
use android_emulator::windows::{
    main_thread, JobAction, JobEvent, JobSpawn, JobStep, ThreadEntry,
};
use android_emulator::xtask::{xtask_command, XtaskCommand};

#[test]
fn lines_are_forwarded_until_the_end() {
    match forward_step(ForwardEvent::Line("INFO    | hi".to_string())) {
        ForwardAction::Log(level, text) => assert_eq!((level, text.as_str()), (LogLevel::Info, "| hi")),
        _ => panic!("not logged"),
    }
    assert!(matches!(forward_step(ForwardEvent::Eof), ForwardAction::Exit));
    assert!(matches!(forward_step(ForwardEvent::Shutdown), ForwardAction::Exit));
    match forward_step(ForwardEvent::ReadFailed("bad".to_string())) {
        ForwardAction::Fail(e) => assert_eq!(e, "bad"),
        _ => panic!("no failure"),
    }
}

const WITH_IO: OwnedProcess =
    OwnedProcess { tree: true, shutdown: true, stdout_task: true, stderr_task: true };

const WITHOUT_IO: OwnedProcess =
    OwnedProcess { tree: false, shutdown: true, stdout_task: false, stderr_task: false };

#[test]
fn a_kill_signals_waits_and_joins() {
    let p = WITH_IO;
    let (s, a) = p.kill_owned_process();
    assert!(matches!(a, KillAction::SignalTree));
    let (s, a) = p.kill_next(s, KillEvent::Signalled);
    assert!(matches!(a, KillAction::Wait));
    let (s, a) = p.kill_next(s, KillEvent::Exited);
    assert!(matches!(a, KillAction::SendShutdown));
    let (s, a) = p.kill_next(s, KillEvent::ShutdownSent);
    assert!(matches!(a, KillAction::JoinStdout));
    let (s, a) = p.kill_next(s, KillEvent::Joined);
    assert!(matches!(a, KillAction::JoinStderr));
    let (s, a) = p.kill_next(s, KillEvent::Joined);
    assert!(matches!(a, KillAction::Done(Ok(()))));
    assert!(matches!(s, Killing::Ended));
}

#[test]
fn redirected_output_leaves_nothing_to_join() {
    let p = WITHOUT_IO;
    let (s, a) = p.kill_owned_process();
    assert!(matches!(a, KillAction::SignalChild));
    let (s, _) = p.kill_next(s, KillEvent::Signalled);
    let (s, _) = p.kill_next(s, KillEvent::Exited);
    let (_, a) = p.kill_next(s, KillEvent::ShutdownSent);
    assert!(matches!(a, KillAction::Done(Ok(()))));
    let p = OwnedProcess { stderr_task: true, ..WITHOUT_IO };
    let (_, a) = p.kill_next(Killing::Shutdown(Ok(())), KillEvent::ShutdownSent);
    assert!(matches!(a, KillAction::JoinStderr));
    let p = OwnedProcess { shutdown: false, ..WITHOUT_IO };
    let (_, a) = p.kill_next(Killing::Wait, KillEvent::Exited);
    assert!(matches!(a, KillAction::Done(Ok(()))));
}

#[test]
fn a_failed_signal_ends_the_kill() {
    let (s, _) = WITH_IO.kill_owned_process();
    let (_, a) = WITH_IO.kill_next(s, KillEvent::SignalFailed("denied".to_string()));
    match a {
        KillAction::Done(Err(EmulatorError::EmulatorKillFailed(e))) => assert_eq!(e, "denied"),
        _ => panic!("no failure"),
    }
}

#[test]
fn a_failed_wait_is_told_after_the_cleanup() {
    let (s, a) = WITHOUT_IO.kill_next(Killing::Wait, KillEvent::WaitFailed("lost".to_string()));
    assert!(matches!(a, KillAction::SendShutdown));
    let (_, a) = WITHOUT_IO.kill_next(s, KillEvent::ShutdownSent);
    match a {
        KillAction::Done(Err(EmulatorError::EmulatorKillFailed(e))) => assert_eq!(e, "lost"),
        _ => panic!("no failure"),
    }
}

#[test]
fn the_group_is_signalled_by_its_negative() {
    let group = EmulatorProcessGroup::spawn(Some(1234)).unwrap();
    assert_eq!(group.pgid(), 1234);
    assert_eq!(group.kill(), -1234);
    assert_eq!(EmulatorProcessGroup::spawn(Some(0)).unwrap().kill(), 0);
    for id in [0x7fff_ffffu32, 0x8000_0001, 0xffff_ffff] {
        let group = EmulatorProcessGroup::spawn(Some(id)).unwrap();
        assert_eq!(group.kill(), -(id as i32));
    }
    assert_eq!(EmulatorProcessGroup::spawn(None).err().unwrap(), "Child process has no ID");
}

#[test]
fn the_first_thread_of_the_process_is_found() {
    let t = |owner, thread| ThreadEntry { owner, thread };
    let threads = vec![t(4, 1), t(9, 2), t(7, 3), t(9, 4)];
    assert_eq!(main_thread(&threads, 9), Some(2));
    assert_eq!(main_thread(&threads, 5), None);
    assert_eq!(main_thread(&vec![], 5), None);
}

fn job_error(action: JobAction) -> String {
    match action {
        JobAction::Done(Err(e)) => e,
        _ => panic!("no error"),
    }
}

#[test]
fn a_job_is_entered_before_the_process_is_resumed() {
    let (s, a) = JobSpawn::Create.spawn(JobEvent::Succeeded);
    assert!(matches!(a, JobAction::QueryInfo));
    let (s, a) = s.spawn(JobEvent::Succeeded);
    assert!(matches!(a, JobAction::SetInfo));
    let (s, a) = s.spawn(JobEvent::Succeeded);
    assert!(matches!(a, JobAction::Start));
    let (s, a) = s.spawn(JobEvent::Started(Some(9)));
    assert!(matches!(a, JobAction::OpenProcess(9)));
    let (s, a) = s.spawn(JobEvent::Succeeded);
    assert!(matches!(a, JobAction::AssignProcess));
    let (s, a) = s.spawn(JobEvent::Succeeded);
    assert!(matches!(a, JobAction::Snapshot));
    let threads = vec![ThreadEntry { owner: 1, thread: 2 }, ThreadEntry { owner: 9, thread: 4 }];
    let (s, a) = s.spawn(JobEvent::Threads(threads));
    assert!(matches!(a, JobAction::OpenThread(4)));
    let (s, a) = s.spawn(JobEvent::Succeeded);
    assert!(matches!(a, JobAction::Resume));
    let (s, a) = s.spawn(JobEvent::Succeeded);
    assert!(matches!(a, JobAction::Done(Ok(()))));
    assert_eq!(s, JobSpawn::Ended);
}

#[test]
fn failures_end_the_start_in_a_job() {
    let failed = |s: JobSpawn| job_error(s.spawn(JobEvent::Failed("x".to_string())).1);
    assert_eq!(failed(JobSpawn::Create), "Failed to create job: x");
    assert_eq!(failed(JobSpawn::QueryInfo), "Failed to query job info: x");
    assert_eq!(failed(JobSpawn::SetInfo), "Failed to set job info: x");
    assert_eq!(failed(JobSpawn::OpenProcess { process: 1 }), "Failed to open process: x");
    assert_eq!(
        failed(JobSpawn::AssignProcess { process: 1 }),
        "Failed to assign process to job: x"
    );
    assert_eq!(failed(JobSpawn::Snapshot { process: 1 }), "Failed to create snapshot: x");
    assert_eq!(failed(JobSpawn::OpenThread), "Failed to open thread: x");
    let (_, a) = JobSpawn::Start.spawn(JobEvent::Started(None));
    assert_eq!(job_error(a), "Child process has no ID");
    let (_, a) = JobSpawn::Start.spawn(JobEvent::NotStarted("denied".to_string()));
    assert_eq!(job_error(a), "denied");
    let (_, a) = JobSpawn::Snapshot { process: 1 }.spawn(JobEvent::Threads(vec![]));
    assert_eq!(job_error(a), "Could not find main thread to resume");
}

#[test]
fn failed_steps_are_named() {
    let cases = [
        (JobStep::Create, "Failed to create job: x"),
        (JobStep::QueryInfo, "Failed to query job info: x"),
        (JobStep::SetInfo, "Failed to set job info: x"),
        (JobStep::OpenProcess, "Failed to open process: x"),
        (JobStep::AssignProcess, "Failed to assign process to job: x"),
        (JobStep::Snapshot, "Failed to create snapshot: x"),
        (JobStep::OpenThread, "Failed to open thread: x"),
        (JobStep::Terminate, "Failed to terminate job: x"),
    ];
    for (step, text) in cases {
        assert_eq!(step.failure("x"), text);
    }
}

#[test]
fn tasks_are_chosen_by_name() {
    let args = |v: &[&str]| v.iter().map(|s| s.to_string()).collect::<Vec<String>>();
    assert!(matches!(xtask_command(&args(&["xtask", "codegen", "x"])), XtaskCommand::Codegen));
    assert!(XtaskCommand::Codegen.complaint().is_none());
    let usage = xtask_command(&args(&["xtask"])).complaint().unwrap();
    assert!(usage.starts_with("Usage: cargo xtask <COMMAND>\n\nCommands:\n"));
    assert_eq!(
        xtask_command(&args(&["xtask", "build"])).complaint().unwrap(),
        "Unknown command: build\n\nAvailable commands:\n  codegen    Generate protobuf bindings from .proto files\n"
    );
}
