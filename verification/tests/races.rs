use lifeos_shell::supervisor::{ProcessHandle, ProcessSupervisor, StartReport};
use std::cell::Cell;
use std::sync::Mutex;

/// Stands in for a process and counts the signals sent to it.
#[derive(Debug)]
struct CountedProcess<'a> {
    signals: &'a Cell<u32>,
}

impl CountedProcess<'_> {
    fn terminate(&mut self) {
        self.signals.set(self.signals.get() + 1);
    }
}

/// One caller's stop: the handle is taken out with the lock held and the
/// process is signalled after the lock is given up. Says whether this caller
/// signalled.
fn stop_through(shared: &Mutex<ProcessSupervisor<CountedProcess<'_>>>) -> bool {
    let released = shared.lock().unwrap().stop();
    match released {
        Some(mut handle) => {
            handle.process.terminate();
            true
        }
        None => false,
    }
}

fn shared_running(signals: &Cell<u32>) -> Mutex<ProcessSupervisor<CountedProcess<'_>>> {
    let mut supervisor = ProcessSupervisor::new();
    let report = supervisor.finish_start(Ok(ProcessHandle {
        pid: 77,
        process: CountedProcess { signals },
    }));
    assert!(matches!(report, StartReport::Started { pid: 77 }));
    Mutex::new(supervisor)
}

#[test]
fn first_of_two_stops_signals_the_process() {
    let signals = Cell::new(0);
    let shared = shared_running(&signals);
    let a = stop_through(&shared);
    let b = stop_through(&shared);
    assert!(a);
    assert!(!b);
    assert_eq!(signals.get(), 1);
    assert!(!shared.lock().unwrap().is_running());
}

#[test]
fn either_order_of_two_stops_signals_once() {
    for a_first in [true, false] {
        let signals = Cell::new(0);
        let shared = shared_running(&signals);
        let (a, b) = if a_first {
            let a = stop_through(&shared);
            (a, stop_through(&shared))
        } else {
            let b = stop_through(&shared);
            (stop_through(&shared), b)
        };
        assert_eq!(a, a_first);
        assert_eq!(b, !a_first);
        assert_eq!(signals.get(), 1);
        assert!(!shared.lock().unwrap().is_running());
    }
}

#[test]
fn attempts_recorded_in_turn_keep_the_first_process() {
    let shared = Mutex::new(ProcessSupervisor::new());
    let mut started = 0;
    let mut rejected = Vec::new();
    for pid in [1u32, 2u32, 3u32] {
        let report = shared
            .lock()
            .unwrap()
            .finish_start(Ok(ProcessHandle { pid, process: pid }));
        match report {
            StartReport::Started { pid: kept } => {
                started += 1;
                assert_eq!(kept, 1);
            }
            StartReport::Rejected(handle) => rejected.push(handle.pid),
            StartReport::Failed(_) => panic!("no attempt failed"),
        }
    }
    assert_eq!(started, 1);
    assert_eq!(rejected, vec![2, 3]);
    assert_eq!(shared.lock().unwrap().pid(), Some(1));
}
