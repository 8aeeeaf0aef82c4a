//! A managed VM instance: the running-state decisions around the backend's
//! start, stop, kill, pause, resume and snapshot operations.
//!
//! Each operation is split at the backend call: a check decides whether the
//! call may be made, and a `finish_*` function records what the backend
//! reported. The program awaits the backend in between.
use vstd::prelude::*;

use crate::vm::config::VmConfig;
use crate::vm::error::Error as VmError;
use crate::vm::snapshot::Snapshot;

verus! {

/// A managed virtual machine instance.
pub struct Vm<B> {
    config: VmConfig,
    backend: B,
    pid: Option<u32>,
}

/// `e` reports that VM `name` is not running.
pub open spec fn is_not_running(e: VmError, name: Seq<char>) -> bool {
    e matches VmError::NotRunning { name: n } && n@ == name
}

/// `e` reports that VM `name` is already running.
pub open spec fn is_already_running(e: VmError, name: Seq<char>) -> bool {
    e matches VmError::AlreadyRunning { name: n } && n@ == name
}

/// The outcome of asking to operate on a VM that needs to run: fine when it
/// runs, a not-running error naming the VM otherwise.
pub open spec fn running_check_ok(pid: Option<u32>, res: Result<(), VmError>, name: Seq<char>) -> bool {
    match pid {
        Some(_) => res is Ok,
        None => res matches Err(e) && is_not_running(e, name),
    }
}

/// The outcome of asking to start a VM: fine when it does not run, an
/// already-running error naming the VM otherwise.
pub open spec fn start_check_ok(pid: Option<u32>, res: Result<(), VmError>, name: Seq<char>) -> bool {
    match pid {
        Some(_) => res matches Err(e) && is_already_running(e, name),
        None => res is Ok,
    }
}

/// The PID after the backend reported on a start: the PID it started on
/// success, unchanged on failure.
pub open spec fn pid_after_start(pid: Option<u32>, outcome: Result<u32, VmError>) -> Option<u32> {
    match outcome {
        Ok(p) => Some(p),
        Err(_) => pid,
    }
}

/// The PID after the backend reported on a stop or a kill: none on
/// success, unchanged on failure.
pub open spec fn pid_after_stop(pid: Option<u32>, outcome: Result<(), VmError>) -> Option<u32> {
    match outcome {
        Ok(_) => None,
        Err(_) => pid,
    }
}

impl<B> Vm<B> {
    /// The PID of the running VM, if it runs.
    pub closed spec fn spec_pid(&self) -> Option<u32> {
        self.pid
    }

    /// The VM's configuration.
    pub closed spec fn spec_config(&self) -> VmConfig {
        self.config
    }

    /// The VM's backend.
    pub closed spec fn spec_backend(&self) -> B {
        self.backend
    }

    /// A VM with the given configuration and backend, not running.
    pub fn new(config: VmConfig, backend: B) -> (res: Self)
        ensures
            res.spec_pid() is None,
            res.spec_config() == config,
            res.spec_backend() == backend,
    {
        Vm { config, backend, pid: None }
    }

    /// The VM's configuration.
    pub fn config(&self) -> (res: &VmConfig)
        ensures
            *res == self.spec_config(),
    {
        &self.config
    }

    /// The VM's backend.
    pub fn backend(&self) -> (res: &B)
        ensures
            *res == self.spec_backend(),
    {
        &self.backend
    }

    /// Whether the VM runs.
    pub fn is_running(&self) -> (res: bool)
        ensures
            res == self.spec_pid() is Some,
    {
        self.pid.is_some()
    }

    /// The PID of the running VM.
    pub fn pid(&self) -> (res: Option<u32>)
        ensures
            res == self.spec_pid(),
    {
        self.pid
    }

    /// A not-running error naming this VM unless it runs. Every operation
    /// but start asks this before calling the backend.
    pub fn ensure_running(&self) -> (res: Result<(), VmError>)
        ensures
            running_check_ok(self.spec_pid(), res, self.spec_config()@.name),
    {
        if self.pid.is_none() {
            return Err(VmError::NotRunning { name: self.config.name().to_owned() });
        }
        Ok(())
    }

    /// An already-running error naming this VM if it runs; asked before the
    /// backend is told to start it.
    pub fn check_can_start(&self) -> (res: Result<(), VmError>)
        ensures
            start_check_ok(self.spec_pid(), res, self.spec_config()@.name),
    {
        if self.pid.is_some() {
            return Err(VmError::AlreadyRunning { name: self.config.name().to_owned() });
        }
        Ok(())
    }

    /// Records what the backend reported on a start: the VM runs with the
    /// reported PID on success; on failure nothing changes and the backend's
    /// error is returned.
    pub fn finish_start(&mut self, outcome: Result<u32, VmError>) -> (res: Result<(), VmError>)
        ensures
            final(self).spec_pid() == pid_after_start(old(self).spec_pid(), outcome),
            final(self).spec_config() == old(self).spec_config(),
            final(self).spec_backend() == old(self).spec_backend(),
            match outcome {
                Ok(_) => res is Ok,
                Err(e) => res == Err::<(), VmError>(e),
            },
    {
        match outcome {
            Ok(pid) => {
                self.pid = Some(pid);
                Ok(())
            },
            Err(e) => Err(e),
        }
    }

    /// Records what the backend reported on a stop or a kill: the VM no
    /// longer runs on success; on failure nothing changes and the backend's
    /// error is returned.
    pub fn finish_stop(&mut self, outcome: Result<(), VmError>) -> (res: Result<(), VmError>)
        ensures
            final(self).spec_pid() == pid_after_stop(old(self).spec_pid(), outcome),
            final(self).spec_config() == old(self).spec_config(),
            final(self).spec_backend() == old(self).spec_backend(),
            res == outcome,
    {
        if outcome.is_ok() {
            self.pid = None;
        }
        outcome
    }

    /// The snapshot a successful save produced, tagged `tag`, or the
    /// backend's error.
    pub fn finish_save_snapshot(&self, tag: &str, outcome: Result<(), VmError>) -> (res: Result<
        Snapshot,
        VmError,
    >)
        ensures
            match outcome {
                Ok(_) => res matches Ok(s) && s@ == tag@,
                Err(e) => res == Err::<Snapshot, VmError>(e),
            },
    {
        match outcome {
            Ok(()) => Ok(Snapshot::new(tag)),
            Err(e) => Err(e),
        }
    }
}

/// Once a start succeeds the VM runs with the backend's PID: a second start is
/// refused as already running, and the other operations may proceed.
pub proof fn lemma_started_vm_runs(pid: Option<u32>, p: u32, name: Seq<char>, r1: Result<(), VmError>, r2: Result<(), VmError>)
    requires
        start_check_ok(pid_after_start(pid, Ok(p)), r1, name),
        running_check_ok(pid_after_start(pid, Ok(p)), r2, name),
    ensures
        pid_after_start(pid, Ok(p)) == Some(p),
        r1 matches Err(e) && is_already_running(e, name),
        r2 is Ok,
{
}

/// Once a stop or a kill succeeds the VM no longer runs: every operation but
/// start is refused as not running, and start may proceed.
pub proof fn lemma_stopped_vm_idle(pid: Option<u32>, name: Seq<char>, r1: Result<(), VmError>, r2: Result<(), VmError>)
    requires
        start_check_ok(pid_after_stop(pid, Ok(())), r1, name),
        running_check_ok(pid_after_stop(pid, Ok(())), r2, name),
    ensures
        pid_after_stop(pid, Ok(())) is None,
        r1 is Ok,
        r2 matches Err(e) && is_not_running(e, name),
{
}

/// A backend failure leaves the running state as it was.
pub proof fn lemma_failure_keeps_state(pid: Option<u32>, e1: VmError, e2: VmError)
    ensures
        pid_after_start(pid, Err(e1)) == pid,
        pid_after_stop(pid, Err(e2)) == pid,
{
}

} // verus!
