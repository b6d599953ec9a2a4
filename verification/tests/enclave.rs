use enclave_runner::abi::{EV_UNPARK, WAIT_NO};
use enclave_runner::enclave::{
    library_entry_finish, workers_for, EnclaveKind, EnclaveState, IoAction, LoadedTcs,
};
use enclave_runner::error::{EnclaveAbort, EnclavePanic, EntryError, ErrorKind};
use enclave_runner::fd::AsyncFileDesc;
use enclave_runner::tcs::{EnclaveEntry, TcsAddress, WaitStep};
use enclave_runner::usercalls::parse_address;
use enclave_runner::work::{CoEntry, Work, WorkSender};

type Enclave = EnclaveState<u32, &'static str, u16>;
type Job = Work<u32, &'static str>;

fn tcs(n: u32) -> LoadedTcs<u32> {
    LoadedTcs { tcs: n, address: TcsAddress(0x1000 * n as usize) }
}

fn command(threads: u32) -> (Enclave, Job) {
    let threads = (2..2 + threads).map(tcs).collect();
    Enclave::main_entry_start(tcs(1), threads, "in", "out", "err", false)
}

fn scratch(message: &[u8]) -> Vec<u8> {
    let mut buf = vec![0u8; 1024];
    buf[..message.len()].copy_from_slice(message);
    buf
}

#[test]
fn main_entry_starts_the_main_thread_with_zero_parameters() {
    let (enclave, work) = command(2);
    assert!(matches!(work.entry, CoEntry::Initial(1, 0, 0, 0, 0, 0)));
    assert_eq!(work.tcs.entry_mode(), EnclaveEntry::ExecutableMain);
    assert_eq!(work.tcs.pending_len(), 0);
    assert_eq!(work.tcs.pending_event_set(), 0);
    assert!(!enclave.is_exiting());
    assert!(!enclave.forward_panics());
    assert_eq!(enclave.stopped_threads(), 2);
    assert_eq!(enclave.last_fd(), 2);
    assert!(enclave.has_event_queue(TcsAddress(0x1000)));
    assert!(enclave.has_event_queue(TcsAddress(0x2000)));
    assert!(enclave.has_event_queue(TcsAddress(0x3000)));
    assert!(!enclave.has_event_queue(TcsAddress(0x4000)));
    assert!(enclave.kind().as_command().is_some());
    assert!(enclave.kind()._as_library().is_none());
}

#[test]
fn worker_threads_is_one_for_a_library() {
    let lib = Enclave::library(vec![tcs(1)], "in", "out", "err", false);
    assert_eq!(lib.worker_threads(), 1);
    let (cmd, _work) = command(0);
    assert!(cmd.worker_threads() >= 1);
}

#[test]
fn workers_for_is_one_for_a_library_and_the_processors_for_a_command() {
    assert_eq!(workers_for(&EnclaveKind::library(), 1), 1);
    assert_eq!(workers_for(&EnclaveKind::library(), 16), 1);
    assert_eq!(workers_for(&EnclaveKind::command(), 1), 1);
    assert_eq!(workers_for(&EnclaveKind::command(), 16), 16);
}

#[test]
fn launch_thread_start_makes_the_work_of_the_next_stopped_thread() {
    let (mut enclave, _main) = command(2);
    let mut work: Job = enclave.launch_thread_start().unwrap();
    assert!(matches!(work.entry, CoEntry::Initial(2, 0, 0, 0, 0, 0)));
    assert_eq!(work.tcs.entry_mode(), EnclaveEntry::ExecutableNonMain);
    assert_eq!(work.tcs.pending_len(), 0);
    assert_eq!(work.tcs.pending_event_set(), 0);
    assert_eq!(enclave.stopped_threads(), 1);
    assert_eq!(enclave.send(EV_UNPARK, Some(TcsAddress(0x3000))), Ok(()));
    assert_eq!(work.tcs.wait(EV_UNPARK, WAIT_NO), WaitStep::Done(Err(ErrorKind::WouldBlock)));
    assert_eq!(enclave.send(EV_UNPARK, Some(TcsAddress(0x2000))), Ok(()));
    assert_eq!(work.tcs.wait(EV_UNPARK, WAIT_NO), WaitStep::Done(Ok(EV_UNPARK)));
    let next: Job = enclave.launch_thread_start().unwrap();
    assert!(matches!(next.entry, CoEntry::Initial(3, 0, 0, 0, 0, 0)));
    assert_eq!(enclave.stopped_threads(), 0);
}

#[test]
fn launch_thread_start_refuses_without_a_thread_and_in_a_library() {
    let (mut enclave, _main) = command(0);
    assert!(matches!(enclave.launch_thread_start::<&'static str>(), Err(ErrorKind::WouldBlock)));
    let mut library = Enclave::library(vec![tcs(1)], "in", "out", "err", false);
    assert!(matches!(
        library.launch_thread_start::<&'static str>(),
        Err(ErrorKind::InvalidInput)
    ));
    assert_eq!(library.stopped_threads(), 1);
}

#[test]
fn main_thread_holds_the_queue_of_its_own_address() {
    let (mut enclave, mut main) = command(1);
    assert_eq!(enclave.send(EV_UNPARK, Some(TcsAddress(0x2000))), Ok(()));
    assert_eq!(main.tcs.wait(EV_UNPARK, WAIT_NO), WaitStep::Done(Err(ErrorKind::WouldBlock)));
    assert_eq!(enclave.send(EV_UNPARK, Some(TcsAddress(0x1000))), Ok(()));
    assert_eq!(main.tcs.wait(EV_UNPARK, WAIT_NO), WaitStep::Done(Ok(EV_UNPARK)));
}

#[test]
fn launch_thread_hands_the_next_stopped_thread_to_the_workers() {
    let (mut enclave, _main) = command(2);
    let (sender, receiver) = WorkSender::channel();
    assert_eq!(enclave.launch_thread(&sender), Ok(()));
    assert_eq!(enclave.stopped_threads(), 1);
    let work: Job = receiver.try_recv().unwrap();
    assert!(matches!(work.entry, CoEntry::Initial(2, 0, 0, 0, 0, 0)));
    assert_eq!(work.tcs.entry_mode(), EnclaveEntry::ExecutableNonMain);
    assert_eq!(work.tcs.pending_len(), 0);
    assert_eq!(enclave.launch_thread(&sender), Ok(()));
    let work: Job = receiver.try_recv().unwrap();
    assert!(matches!(work.entry, CoEntry::Initial(3, 0, 0, 0, 0, 0)));
    assert_eq!(enclave.stopped_threads(), 0);
    assert!(receiver.try_recv().is_err());
}

#[test]
fn launched_thread_keeps_its_event_queue() {
    let (mut enclave, _main) = command(1);
    let (sender, receiver) = WorkSender::channel();
    assert_eq!(enclave.launch_thread(&sender), Ok(()));
    let mut work: Job = receiver.try_recv().unwrap();
    assert_eq!(enclave.send(EV_UNPARK, Some(TcsAddress(0x2000))), Ok(()));
    assert_eq!(work.tcs.wait(EV_UNPARK, WAIT_NO), WaitStep::Done(Ok(EV_UNPARK)));
}

#[test]
fn launch_thread_without_stopped_thread_would_block() {
    let (mut enclave, _main) = command(0);
    let (sender, receiver) = WorkSender::<u32, &'static str>::channel();
    assert_eq!(enclave.launch_thread(&sender), Err(ErrorKind::WouldBlock));
    assert!(receiver.try_recv().is_err());
}

#[test]
fn launch_thread_in_a_library_is_invalid_input() {
    let mut enclave = Enclave::library(vec![tcs(1)], "in", "out", "err", false);
    let (sender, receiver) = WorkSender::<u32, &'static str>::channel();
    assert_eq!(enclave.launch_thread(&sender), Err(ErrorKind::InvalidInput));
    assert_eq!(enclave.stopped_threads(), 1);
    assert!(receiver.try_recv().is_err());
}

#[test]
fn launch_thread_without_workers_puts_the_thread_back() {
    let (mut enclave, _main) = command(2);
    let (sender, receiver) = WorkSender::<u32, &'static str>::channel();
    drop(receiver);
    assert_eq!(enclave.launch_thread(&sender), Err(ErrorKind::NotConnected));
    assert_eq!(enclave.stopped_threads(), 2);
    let (sender, receiver) = WorkSender::channel();
    assert_eq!(enclave.launch_thread(&sender), Ok(()));
    let work: Job = receiver.try_recv().unwrap();
    assert!(matches!(work.entry, CoEntry::Initial(3, 0, 0, 0, 0, 0)));
    assert_eq!(enclave.launch_thread(&sender), Ok(()));
    let work: Job = receiver.try_recv().unwrap();
    assert!(matches!(work.entry, CoEntry::Initial(2, 0, 0, 0, 0, 0)));
}

#[test]
fn work_that_cannot_be_sent_comes_back() {
    let (_enclave, main) = command(0);
    let (sender, receiver) = WorkSender::channel();
    drop(receiver);
    let back = sender.send(main).unwrap_err();
    assert!(matches!(back.entry, CoEntry::Initial(1, 0, 0, 0, 0, 0)));
    assert_eq!(back.tcs.entry_mode(), EnclaveEntry::ExecutableMain);
}

#[test]
fn exit_starts_the_shutdown() {
    let (mut enclave, mut main) = command(1);
    assert_eq!(enclave.exit(false), EnclaveAbort::Exit { panic: false });
    assert!(enclave.is_exiting());
    assert_eq!(main.tcs.wait(EV_UNPARK, WAIT_NO), WaitStep::Done(Err(ErrorKind::Other)));
    assert_eq!(enclave.exit(true), EnclaveAbort::Exit { panic: true });
    assert!(enclave.is_exiting());
}

#[test]
fn usercall_result_resumes_the_same_usercall() {
    let (enclave, main) = command(0);
    match enclave.after_usercall(main.tcs, "write", Ok((2, 0)), &scratch(b"")) {
        IoAction::Resume(work) => {
            assert!(matches!(work.entry, CoEntry::Resume("write", (2, 0))));
            assert_eq!(work.tcs.entry_mode(), EnclaveEntry::ExecutableMain);
        }
        _ => panic!("the usercall is not resumed"),
    }
}

#[test]
fn exit_without_panic_is_reported_as_success() {
    let (enclave, main) = command(0);
    let action = enclave.after_usercall(
        main.tcs,
        "exit",
        Err(EnclaveAbort::Exit { panic: false }),
        &scratch(b"ignored"),
    );
    assert!(matches!(action, IoAction::Report(Ok((0, 0)), EnclaveEntry::ExecutableMain)));
}

#[test]
fn exit_with_panic_carries_the_message() {
    let (enclave, main) = command(0);
    let action = enclave.after_usercall(
        main.tcs,
        "exit",
        Err(EnclaveAbort::Exit { panic: true }),
        &scratch(b"boom!"),
    );
    match action {
        IoAction::Report(Err(EnclaveAbort::Exit { panic }), EnclaveEntry::ExecutableMain) => {
            assert_eq!(panic, EnclavePanic::DebugStr("boom!".to_string()))
        }
        _ => panic!("the panic is not reported"),
    }
}

#[test]
fn forwarded_panic_is_not_reported() {
    let (enclave, main) =
        Enclave::main_entry_start::<&'static str>(tcs(1), Vec::new(), "in", "out", "err", true);
    assert!(enclave.forward_panics());
    let action = enclave.after_usercall(
        main.tcs,
        "exit",
        Err(EnclaveAbort::Exit { panic: true }),
        &scratch(b"boom!"),
    );
    match action {
        IoAction::ForwardPanic(panic) => {
            assert_eq!(panic, EnclavePanic::DebugStr("boom!".to_string()))
        }
        _ => panic!("the panic is not forwarded"),
    }
}

#[test]
fn other_aborts_are_reported_as_they_are() {
    for n in 0..4 {
        let (enclave, main) = command(0);
        let abort = match n {
            0 => EnclaveAbort::IndefiniteWait,
            1 => EnclaveAbort::InvalidUsercall(77),
            2 => EnclaveAbort::MainReturned,
            _ => EnclaveAbort::Secondary,
        };
        let action = enclave.after_usercall(main.tcs, "call", Err(abort), &scratch(b"x"));
        match (n, action) {
            (0, IoAction::Report(Err(EnclaveAbort::IndefiniteWait), _)) => {}
            (1, IoAction::Report(Err(EnclaveAbort::InvalidUsercall(77)), _)) => {}
            (2, IoAction::Report(Err(EnclaveAbort::MainReturned), _)) => {}
            (3, IoAction::Report(Err(EnclaveAbort::Secondary), _)) => {}
            _ => panic!("the abort is not reported as it is"),
        }
    }
}

#[test]
fn main_thread_must_not_return() {
    let (mut enclave, main) = command(1);
    let (result, mode) = enclave.after_return(main.tcs, 1, 0, 0);
    assert_eq!(result, Err(EnclaveAbort::MainReturned));
    assert_eq!(mode, EnclaveEntry::ExecutableMain);
    assert_eq!(enclave.stopped_threads(), 1);
    let verdict = enclave.thread_stopped(result, mode).unwrap();
    let outcome = enclave.main_entry_finish(verdict);
    assert_eq!(outcome, Err(EntryError::MainReturned));
    assert!(outcome.unwrap_err().message().contains("main entrypoint"));
    assert!(enclave.is_exiting());
    assert_eq!(enclave.stopped_threads(), 0);
}

#[test]
fn launched_thread_that_returns_can_be_launched_again() {
    let (mut enclave, _main) = command(1);
    let (sender, receiver) = WorkSender::channel();
    assert_eq!(enclave.launch_thread(&sender), Ok(()));
    let work: Job = receiver.try_recv().unwrap();
    assert_eq!(enclave.stopped_threads(), 0);
    let (result, mode) = enclave.after_return(work.tcs, 2, 0, 0);
    assert_eq!(result, Ok((0, 0)));
    assert_eq!(mode, EnclaveEntry::ExecutableNonMain);
    assert_eq!(enclave.stopped_threads(), 1);
    assert_eq!(enclave.thread_stopped(result, mode), None);
    assert_eq!(enclave.launch_thread(&sender), Ok(()));
    let again: Job = receiver.try_recv().unwrap();
    assert!(matches!(again.entry, CoEntry::Initial(2, 0, 0, 0, 0, 0)));
}

#[test]
fn launched_thread_that_returns_during_shutdown_is_let_go() {
    let (mut enclave, _main) = command(1);
    let (sender, receiver) = WorkSender::channel();
    assert_eq!(enclave.launch_thread(&sender), Ok(()));
    let work: Job = receiver.try_recv().unwrap();
    enclave.abort_all_threads();
    let (result, mode) = enclave.after_return(work.tcs, 2, 0, 0);
    assert_eq!(result, Ok((0, 0)));
    assert_eq!(mode, EnclaveEntry::ExecutableNonMain);
    assert_eq!(enclave.stopped_threads(), 0);
}

#[test]
fn clean_exit_of_main_is_success() {
    let (mut enclave, main) = command(2);
    let _ = enclave.exit(false);
    let action =
        enclave.after_usercall(main.tcs, "exit", Err(EnclaveAbort::Exit { panic: false }), &[]);
    let verdict = match action {
        IoAction::Report(result, mode) => enclave.thread_stopped(result, mode).unwrap(),
        _ => panic!("the exit is not reported"),
    };
    assert_eq!(verdict, Ok((0, 0)));
    assert_eq!(enclave.main_entry_finish(verdict), Ok(()));
    assert_eq!(enclave.stopped_threads(), 0);
    assert!(enclave.is_exiting());
}

#[test]
fn panic_of_main_is_told_with_its_message() {
    let (mut enclave, main) = command(0);
    let _ = enclave.exit(true);
    let action = enclave.after_usercall(
        main.tcs,
        "exit",
        Err(EnclaveAbort::Exit { panic: true }),
        &scratch(b"boom!"),
    );
    let verdict = match action {
        IoAction::Report(result, mode) => enclave.thread_stopped(result, mode).unwrap(),
        _ => panic!("the panic is not reported"),
    };
    let error = enclave.main_entry_finish(verdict).unwrap_err();
    assert_eq!(error, EntryError::Panic(EnclavePanic::DebugStr("boom!".to_string())));
    assert!(error.message().contains("boom!"));
    assert_eq!(error.message(), "Enclave panic: boom!");
}

#[test]
fn primary_reason_outranks_a_main_thread_that_did_not_panic() {
    let (mut enclave, _main) = command(1);
    assert_eq!(
        enclave.thread_stopped(
            Err(EnclaveAbort::InvalidUsercall(0x2a)),
            EnclaveEntry::ExecutableNonMain
        ),
        Some(Err(EnclaveAbort::Secondary))
    );
    let error = enclave.main_entry_finish(Err(EnclaveAbort::Secondary)).unwrap_err();
    assert_eq!(error, EntryError::InvalidUsercall(0x2a));
    assert_eq!(error.message(), "The enclave performed an invalid usercall 0x2a");
    match enclave.kind() {
        EnclaveKind::Command(c) => assert!(c.panic_reason.primary_panic_reason.is_none()),
        EnclaveKind::Library(_) => panic!("not a command enclave"),
    }
}

#[test]
fn primary_reason_outranks_success_but_not_a_panic_of_main() {
    let (mut enclave, _main) = command(1);
    let exit = || Err(EnclaveAbort::Exit { panic: EnclavePanic::DebugStr("thread".to_string()) });
    assert_eq!(
        enclave.thread_stopped(exit(), EnclaveEntry::ExecutableNonMain),
        Some(Err(EnclaveAbort::Secondary))
    );
    assert_eq!(
        enclave.main_entry_finish(Ok((0, 0))),
        Err(EntryError::Panic(EnclavePanic::DebugStr("thread".to_string())))
    );

    let (mut enclave, _main) = command(1);
    assert_eq!(
        enclave.thread_stopped(exit(), EnclaveEntry::ExecutableNonMain),
        Some(Err(EnclaveAbort::Secondary))
    );
    assert_eq!(
        enclave.main_entry_finish(Err(EnclaveAbort::MainReturned)),
        Err(EntryError::MainReturned)
    );
}

#[test]
fn indefinite_wait_of_main_is_told() {
    let (mut enclave, _main) = command(0);
    let error = enclave.main_entry_finish(Err(EnclaveAbort::IndefiniteWait)).unwrap_err();
    assert_eq!(error, EntryError::AllThreadsWaiting);
    assert_eq!(
        error.message(),
        "All enclave threads are waiting indefinitely without possibility of wakeup"
    );
}

#[test]
fn library_call_echoes_and_requeues_its_thread() {
    let mut enclave = Enclave::library(vec![tcs(1)], "in", "out", "err", false);
    assert_eq!(enclave.stopped_threads(), 1);
    let work: Job = enclave.library_entry_start(1, 2, 3, 4, 5);
    assert!(matches!(work.entry, CoEntry::Initial(1, 1, 2, 3, 4, 5)));
    assert_eq!(work.tcs.entry_mode(), EnclaveEntry::Library);
    assert_eq!(enclave.stopped_threads(), 0);

    let mut out: Vec<u8> = Vec::new();
    assert_eq!(enclave.stream(1), Ok(&"out"));
    out.extend_from_slice(b"hi");
    let work = match enclave.after_usercall(work.tcs, "write", Ok((2, 0)), &scratch(b"")) {
        IoAction::Resume(work) => work,
        _ => panic!("the usercall is not resumed"),
    };
    assert!(matches!(work.entry, CoEntry::Resume("write", (2, 0))));
    assert_eq!(enclave.stream(1), Ok(&"out"));
    let work = match enclave.after_usercall(work.tcs, "flush", Ok((0, 0)), &scratch(b"")) {
        IoAction::Resume(work) => work,
        _ => panic!("the usercall is not resumed"),
    };
    let (result, mode) = enclave.after_return(work.tcs, 1, 0, 0);
    assert_eq!(mode, EnclaveEntry::Library);
    assert_eq!(enclave.stopped_threads(), 1);
    let verdict = enclave.thread_stopped(result, mode).unwrap();
    assert_eq!(library_entry_finish(verdict), Ok((0, 0)));
    assert_eq!(out, b"hi");

    let again: Job = enclave.library_entry_start(0, 0, 0, 0, 0);
    assert!(matches!(again.entry, CoEntry::Initial(1, 0, 0, 0, 0, 0)));
}

#[test]
fn library_call_returns_its_two_values() {
    let mut enclave = Enclave::library(vec![tcs(1), tcs(2)], "in", "out", "err", false);
    let work: Job = enclave.library_entry_start(9, 8, 7, 6, 5);
    let (result, mode) = enclave.after_return(work.tcs, 1, 11, 22);
    assert_eq!(result, Ok((11, 22)));
    assert_eq!(enclave.thread_stopped(result, mode), Some(Ok((11, 22))));
    let next: Job = enclave.library_entry_start(0, 0, 0, 0, 0);
    assert!(matches!(next.entry, CoEntry::Initial(2, 0, 0, 0, 0, 0)));
    assert_eq!(enclave.stopped_threads(), 1);
}

#[test]
fn verdict_of_secondary_without_a_primary_reason_stays_secondary() {
    let (mut enclave, _main) = command(0);
    assert_eq!(
        enclave.main_entry_finish(Err(EnclaveAbort::Secondary)),
        Err(EntryError::Secondary)
    );
    assert!(enclave.is_exiting());
}

#[test]
fn launched_thread_that_backs_off_gives_no_verdict() {
    let (mut enclave, _main) = command(1);
    assert_eq!(
        enclave.thread_stopped(Err(EnclaveAbort::Secondary), EnclaveEntry::ExecutableNonMain),
        None
    );
    match enclave.kind() {
        EnclaveKind::Command(c) => {
            assert!(c.panic_reason.primary_panic_reason.is_none());
            assert!(c.panic_reason.other_reasons.is_empty());
        }
        EnclaveKind::Library(_) => panic!("not a command enclave"),
    }
    assert_eq!(
        enclave.thread_stopped(Err(EnclaveAbort::Secondary), EnclaveEntry::ExecutableMain),
        Some(Err(EnclaveAbort::Secondary))
    );
}

#[test]
fn work_that_comes_back_puts_its_thread_at_the_end() {
    let (mut enclave, _main) = command(2);
    let work: Job = enclave.launch_thread_start().unwrap();
    assert_eq!(enclave.stopped_threads(), 1);
    assert_eq!(enclave.launch_thread_finish::<&'static str>(Ok(())), Ok(()));
    assert_eq!(enclave.stopped_threads(), 1);
    assert_eq!(enclave.launch_thread_finish(Err(work)), Err(ErrorKind::NotConnected));
    assert_eq!(enclave.stopped_threads(), 2);
    let first: Job = enclave.launch_thread_start().unwrap();
    assert!(matches!(first.entry, CoEntry::Initial(3, 0, 0, 0, 0, 0)));
    let mut second: Job = enclave.launch_thread_start().unwrap();
    assert!(matches!(second.entry, CoEntry::Initial(2, 0, 0, 0, 0, 0)));
    assert_eq!(enclave.send(EV_UNPARK, Some(TcsAddress(0x2000))), Ok(()));
    assert_eq!(second.tcs.wait(EV_UNPARK, WAIT_NO), WaitStep::Done(Ok(EV_UNPARK)));
}

#[test]
fn library_keeps_no_reasons() {
    let mut enclave = Enclave::library(vec![tcs(1)], "in", "out", "err", false);
    assert_eq!(
        enclave.thread_stopped(
            Err(EnclaveAbort::InvalidUsercall(1)),
            EnclaveEntry::ExecutableNonMain
        ),
        Some(Err(EnclaveAbort::Secondary))
    );
    assert!(enclave.kind().as_command().is_none());
    assert!(enclave.kind()._as_library().is_some());
    assert_eq!(
        enclave.thread_stopped(Err(EnclaveAbort::IndefiniteWait), EnclaveEntry::Library),
        Some(Err(EnclaveAbort::IndefiniteWait))
    );
}

#[test]
fn library_errors_are_told() {
    assert_eq!(library_entry_finish(Ok((3, 4))), Ok((3, 4)));
    assert_eq!(
        library_entry_finish(Err(EnclaveAbort::MainReturned)),
        Err(EntryError::MainReturned)
    );
    assert_eq!(
        library_entry_finish(Err(EnclaveAbort::IndefiniteWait)),
        Err(EntryError::ThreadWaiting)
    );
    assert_eq!(
        library_entry_finish(Err(EnclaveAbort::Secondary)),
        Err(EntryError::Secondary)
    );
    assert_eq!(
        library_entry_finish(Err(EnclaveAbort::InvalidUsercall(16))),
        Err(EntryError::InvalidUsercall(16))
    );
    assert_eq!(
        library_entry_finish(Err(EnclaveAbort::Exit { panic: EnclavePanic::NoDebugBuf })),
        Err(EntryError::Panic(EnclavePanic::NoDebugBuf))
    );
}

#[test]
fn bind_accept_and_connect_go_through_the_descriptor_table() {
    let (mut enclave, main) = command(1);
    let (sender, receiver) = WorkSender::channel();

    assert_eq!(parse_address(b"127.0.0.1:0"), Ok("127.0.0.1:0"));
    let listener = enclave.alloc_fd(AsyncFileDesc::listener(4242));
    assert_eq!(listener, 3);
    assert_eq!(enclave.launch_thread(&sender), Ok(()));
    let second: Job = receiver.try_recv().unwrap();

    assert_eq!(parse_address(b"127.0.0.1:4242"), Ok("127.0.0.1:4242"));
    let client = enclave.alloc_fd(AsyncFileDesc::stream("client"));
    assert_eq!(enclave.listener(listener), Ok(&4242));
    let server = enclave.alloc_fd(AsyncFileDesc::stream("server"));
    assert_eq!((client, server), (4, 5));
    assert_eq!(enclave.stream(client), Ok(&"client"));
    assert_eq!(enclave.stream(server), Ok(&"server"));
    assert_eq!(enclave.stream(listener), Err(ErrorKind::InvalidInput));
    assert_eq!(enclave.listener(client), Err(ErrorKind::InvalidInput));

    enclave.close(client);
    enclave.close(server);
    enclave.close(listener);
    assert_eq!(enclave.stream(client), Err(ErrorKind::BrokenPipe));

    let (result, mode) = enclave.after_return(second.tcs, 2, 0, 0);
    assert_eq!(enclave.thread_stopped(result, mode), None);
    let _ = enclave.exit(false);
    let action =
        enclave.after_usercall(main.tcs, "exit", Err(EnclaveAbort::Exit { panic: false }), &[]);
    let verdict = match action {
        IoAction::Report(result, mode) => enclave.thread_stopped(result, mode).unwrap(),
        _ => panic!("the exit is not reported"),
    };
    assert_eq!(enclave.main_entry_finish(verdict), Ok(()));
}
