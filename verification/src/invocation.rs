//! One invocation of an app's script, from the dispatch that created it to
//! its end.

use crate::error::{view_of, Error, ErrorView};
use vstd::prelude::*;
use vstd::string::*;

verus! {

/// Where an invocation stands.
#[derive(Debug, Clone, Copy, PartialEq, Eq, Structural)]
pub enum Phase {
    /// Created by a dispatch; nothing has been done yet.
    Idle,
    /// The script's source is being read.
    Loading,
    /// The sandbox exists and the script's top-level code runs in it.
    Initializing,
    /// The script's entry point runs.
    Invoking,
    /// The entry point returned.
    Completed,
    /// A step failed; the sandbox, if there was one, has been released.
    Failed,
}

impl Phase {
    /// Whether no step leads out of this phase.
    pub open spec fn is_terminal(self) -> bool {
        self == Phase::Completed || self == Phase::Failed
    }

    /// The phase that follows when the current step succeeds.
    pub open spec fn next(self) -> Phase {
        match self {
            Phase::Idle => Phase::Loading,
            Phase::Loading => Phase::Initializing,
            Phase::Initializing => Phase::Invoking,
            Phase::Invoking => Phase::Completed,
            Phase::Completed => Phase::Completed,
            Phase::Failed => Phase::Failed,
        }
    }

    /// The phase that follows when the current step fails. Only a step that
    /// does outside work can fail: an idle or finished invocation stays as it
    /// is.
    pub open spec fn fail(self) -> Phase {
        match self {
            Phase::Loading | Phase::Initializing | Phase::Invoking => Phase::Failed,
            _ => self,
        }
    }

    /// Whether the invocation has ended.
    pub fn finished(self) -> (r: bool)
        ensures
            r == self.is_terminal(),
    {
        match self {
            Phase::Completed | Phase::Failed => true,
            _ => false,
        }
    }

    /// Moves on after a step that succeeded.
    pub fn advanced(self) -> (r: Phase)
        ensures
            r == self.next(),
    {
        match self {
            Phase::Idle => Phase::Loading,
            Phase::Loading => Phase::Initializing,
            Phase::Initializing => Phase::Invoking,
            Phase::Invoking => Phase::Completed,
            Phase::Completed => Phase::Completed,
            Phase::Failed => Phase::Failed,
        }
    }

    /// Moves on after a step that failed.
    pub fn failed(self) -> (r: Phase)
        ensures
            r == self.fail(),
    {
        match self {
            Phase::Loading | Phase::Initializing | Phase::Invoking => Phase::Failed,
            _ => self,
        }
    }
}

/// A finished invocation stays finished, whatever is reported to it.
pub proof fn lemma_terminal_is_absorbing(phase: Phase)
    requires
        phase.is_terminal(),
    ensures
        phase.next() == phase,
        phase.fail() == phase,
{
}

/// `Failed` is entered only from `Loading`, `Initializing` and `Invoking`.
pub proof fn lemma_failed_only_from_working(phase: Phase)
    requires
        phase != Phase::Failed,
    ensures
        phase.fail() == Phase::Failed <==> (phase == Phase::Loading || phase == Phase::Initializing
            || phase == Phase::Invoking),
        phase.next() != Phase::Failed,
{
}

/// Four successful steps take a fresh invocation to `Completed`, through
/// `Loading`, `Initializing` and `Invoking` in that order.
pub proof fn lemma_successful_run()
    ensures
        Phase::Idle.next() == Phase::Loading,
        Phase::Idle.next().next() == Phase::Initializing,
        Phase::Idle.next().next().next() == Phase::Invoking,
        Phase::Idle.next().next().next().next() == Phase::Completed,
{
}

/// One invocation: which app runs, on which command, how far it has come,
/// and what stopped it if it failed. Only a dispatch creates one, so the app
/// is always one of the registry.
#[derive(Debug)]
pub struct Invocation {
    pub(crate) app_id: String,
    pub(crate) command: String,
    pub(crate) phase: Phase,
    pub(crate) failure: Option<Error>,
}

/// The mathematical content of an [`Invocation`].
pub struct InvocationView {
    pub app_id: Seq<char>,
    pub command: Seq<char>,
    pub phase: Phase,
    pub failure: Option<ErrorView>,
}

impl View for Invocation {
    type V = InvocationView;

    closed spec fn view(&self) -> InvocationView {
        InvocationView {
            app_id: self.app_id@,
            command: self.command@,
            phase: self.phase,
            failure: view_of(self.failure),
        }
    }
}

impl Invocation {
    #[verifier::type_invariant]
    spec fn consistent(&self) -> bool {
        self.failure is Some <==> self.phase == Phase::Failed
    }

    /// A fresh invocation of `app_id` on `command`.
    pub(crate) fn pending(app_id: String, command: String) -> (inv: Invocation)
        ensures
            inv@ == (InvocationView {
                app_id: app_id@,
                command: command@,
                phase: Phase::Idle,
                failure: None,
            }),
    {
        Invocation { app_id, command, phase: Phase::Idle, failure: None }
    }

    /// The same invocation, arrived at `phase`, with what stopped it if it
    /// failed.
    pub(crate) fn arrived(self, phase: Phase, failure: Option<Error>) -> (inv: Invocation)
        requires
            failure is Some <==> phase == Phase::Failed,
        ensures
            inv@ == (InvocationView {
                app_id: self@.app_id,
                command: self@.command,
                phase,
                failure: view_of(failure),
            }),
    {
        Invocation { app_id: self.app_id, command: self.command, phase, failure }
    }

    /// The identifier of the app that runs.
    pub fn app_id(&self) -> (id: &str)
        ensures
            id@ == self@.app_id,
    {
        self.app_id.as_str()
    }

    /// The command that was dispatched, as it was given.
    pub fn command(&self) -> (command: &str)
        ensures
            command@ == self@.command,
    {
        self.command.as_str()
    }

    /// How far the invocation has come.
    pub fn phase(&self) -> (phase: Phase)
        ensures
            phase == self@.phase,
    {
        self.phase
    }

    /// What stopped the invocation: present exactly when it has failed.
    pub fn failure(&self) -> (failure: Option<&Error>)
        ensures
            failure is Some <==> self@.phase == Phase::Failed,
            match failure {
                Some(e) => self@.failure == Some(e@),
                None => self@.failure is None,
            },
    {
        proof {
            use_type_invariant(self);
        }
        self.failure.as_ref()
    }

    /// What the invocation means for the dispatch that it belongs to. Only a
    /// script that could not be read fails the dispatch, with that error. An
    /// error of the script itself is reported in the invocation and the
    /// dispatch completes.
    pub fn outcome(&self) -> (r: Result<(), Error>)
        ensures
            match self@.failure {
                Some(ErrorView::Io { path }) => r is Err && r->Err_0@ == (ErrorView::Io { path }),
                _ => r is Ok,
            },
    {
        match &self.failure {
            Some(Error::Io { path }) => Err(Error::Io { path: path.clone() }),
            _ => Ok(()),
        }
    }

    /// The path of the script that this invocation runs, below `apps_root`.
    pub fn script_path(&self, apps_root: &str) -> (path: String)
        ensures
            path@ == script_path_of(apps_root@, self@.app_id),
    {
        String::from_str(apps_root).concat("/").concat(self.app_id.as_str()).concat("/main.lua")
    }
}

/// Where the script of an app lies: `<apps_root>/<app_id>/main.lua`.
pub open spec fn script_path_of(apps_root: Seq<char>, app_id: Seq<char>) -> Seq<char> {
    apps_root + "/"@ + app_id + "/main.lua"@
}

} // verus!
