use vstd::prelude::*;

use crate::credentials::{aggregate_credentials, spec_auth_configs, AccountRecord};
use crate::encode::{serialize_auth_configs, spec_configs_json};
use crate::environment::{build_env, env_view, spec_env};
use crate::errors::ServerError;

verus! {

/// What the supervisor believes about the worker. Exactly one value is
/// current at any time.
#[derive(Debug, Clone, Copy, PartialEq, Eq, Structural)]
pub enum ServerStatus {
    Stopped,
    Starting,
    Running,
    Error,
}

/// What a start attempt asks of its caller.
#[derive(Debug)]
pub enum StartDecision {
    /// A worker is already running or starting: nothing to do.
    AlreadyActive,
    /// Announce the `Starting` transition, then spawn the worker with this
    /// environment and report the outcome through `finish_start`.
    Launch(Vec<(String, String)>),
}

/// The supervisor's shared state: the lifecycle status and the process
/// identifier of the spawned worker, if one is recorded. Mutation of the
/// two fields is serialized by the caller; no operation here tears them.
#[derive(Debug)]
pub struct ServerProcessState {
    pub status: ServerStatus,
    pub child_process: Option<u32>,
}

impl ServerProcessState {
    /// The supervisor's invariant: a worker's process identifier is
    /// recorded exactly while the status is `Running`.
    pub open spec fn wf(self) -> bool {
        self.child_process is Some <==> self.status is Running
    }

    /// A fresh supervisor: stopped, with no worker recorded.
    pub fn new() -> (s: Self)
        ensures
            s.status is Stopped,
            s.child_process is None,
            s.wf(),
    {
        ServerProcessState { status: ServerStatus::Stopped, child_process: None }
    }

    /// The current status.
    pub fn get_server_status(&self) -> (r: ServerStatus)
        ensures
            r == self.status,
    {
        self.status
    }

    /// Begin a start attempt. While a worker is already running or
    /// starting this is a no-op. Otherwise the stored accounts are turned
    /// into the credential bundle and the worker's environment; a launch
    /// is owed whenever at least one account is eligible, and only then
    /// does the status move to `Starting`, so a refused attempt leaves
    /// the state exactly as it was. The caller spawns the worker and
    /// reports back through `finish_start`.
    pub fn begin_start(
        &mut self,
        accounts: &Vec<AccountRecord>,
        data_dir: &Option<String>,
    ) -> (r: Result<StartDecision, ServerError>)
        requires
            old(self).wf(),
        ensures
            final(self).wf(),
            final(self).child_process == old(self).child_process,
            (old(self).status is Running || old(self).status is Starting) ==> (*final(self) == *old(self)
                && (r matches Ok(d) && d is AlreadyActive)),
            !(old(self).status is Running || old(self).status is Starting)
                && spec_auth_configs(accounts@).len() == 0 ==> (*final(self) == *old(self) && r == Err::<
                StartDecision,
                ServerError,
            >(ServerError::EmptyCredentials)),
            !(old(self).status is Running || old(self).status is Starting)
                && spec_auth_configs(accounts@).len() > 0 ==> (r matches Ok(d)
                && d matches StartDecision::Launch(env) && env_view(env@) == spec_env(
                *data_dir,
                spec_configs_json(spec_auth_configs(accounts@)),
            ) && final(self).status is Starting),
    {
        if self.status == ServerStatus::Running || self.status == ServerStatus::Starting {
            return Ok(StartDecision::AlreadyActive);
        }
        let configs = match aggregate_credentials(accounts) {
            Ok(c) => c,
            Err(e) => {
                return Err(e);
            },
        };
        let auth_json = serialize_auth_configs(&configs);
        self.status = ServerStatus::Starting;
        Ok(StartDecision::Launch(build_env(data_dir, auth_json)))
    }

    /// Record the outcome of the spawn a `Launch` decision asked for. On
    /// success the worker's process identifier is recorded and the status
    /// moves to `Running`; on failure the status moves to `Error` and the
    /// underlying message is surfaced to the caller.
    pub fn finish_start(&mut self, spawn: Result<u32, String>) -> (r: Result<(), ServerError>)
        requires
            old(self).wf(),
            old(self).status is Starting,
        ensures
            final(self).wf(),
            spawn matches Ok(pid) ==> (final(self).status is Running && final(self).child_process == Some(pid)
                && r is Ok),
            spawn matches Err(m) ==> (final(self).status is Error && final(self).child_process is None && r
                == Err::<(), ServerError>(ServerError::SpawnFailure(m))),
    {
        match spawn {
            Ok(pid) => {
                self.child_process = Some(pid);
                self.status = ServerStatus::Running;
                Ok(())
            },
            Err(m) => {
                self.status = ServerStatus::Error;
                Err(ServerError::SpawnFailure(m))
            },
        }
    }

    /// Stop the worker. Always succeeds: the recorded process identifier,
    /// if any, is handed back for the caller to signal best-effort, the
    /// record is cleared, and the status is `Stopped`. With no worker
    /// recorded this is a no-op beyond resetting the status.
    pub fn stop(&mut self) -> (r: Option<u32>)
        ensures
            final(self).status is Stopped,
            final(self).child_process is None,
            r == old(self).child_process,
            final(self).wf(),
    {
        let pid = self.child_process;
        self.child_process = None;
        self.status = ServerStatus::Stopped;
        pid
    }
}

} // verus!
