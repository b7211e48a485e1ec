//! The script host: runs the script of a dispatched app in a sandbox of its
//! own, with the API object bound to the global `api`.
//!
//! A script that does not return blocks the call: there is no deadline.

use crate::apps::{AppHost, Delayed, DelayedView};
use crate::error::{view_of, Error, ErrorView};
use crate::invocation::{Invocation, Phase};
use vstd::prelude::*;

verus! {

/// The API object of one invocation. It borrows the app's identifier and the
/// host's sink, so it cannot outlive the invocation that made it.
pub struct Api<'a, S> where S: Fn(Delayed) + Send + Sync {
    pub(crate) app_id: &'a str,
    pub(crate) sink: &'a S,
}

impl<'a, S> Api<'a, S> where S: Fn(Delayed) + Send + Sync {
    #[verifier::type_invariant]
    pub(crate) open spec fn usable(&self) -> bool {
        forall|delayed: Delayed| call_requires(*self.sink, (delayed,))
    }

    /// The identifier of the app that this object serves.
    pub closed spec fn app(&self) -> Seq<char> {
        self.app_id@
    }

    /// The sink that this object hands delayed tasks to.
    pub closed spec fn sink(&self) -> S {
        *self.sink
    }

    /// The API object that serves the app `app_id` and hands its delayed
    /// tasks to `sink`. The sink must accept every delayed task.
    pub fn serving(app_id: &'a str, sink: &'a S) -> (api: Self)
        requires
            forall|delayed: Delayed| call_requires(*sink, (delayed,)),
        ensures
            api.app() == app_id@,
            api.sink() == *sink,
    {
        Api { app_id, sink }
    }

    /// Asks the host for follow-up work after `millis` milliseconds: hands
    /// the sink one delayed task for this app, and returns when the sink has
    /// taken it.
    pub fn delayed(&self, millis: u64)
        ensures
            exists|task: Delayed|
                task@ == (DelayedView { app_id: self.app(), duration_ms: millis }) && #[trigger] call_ensures(
                    self.sink(),
                    (task,),
                    (),
                ),
    {
        proof {
            use_type_invariant(self);
        }
        let task = Delayed { app_id: self.app_id.to_owned(), duration_ms: millis };
        let ghost sent = task;
        (self.sink)(task);
        assert(sent@ == (DelayedView { app_id: self.app(), duration_ms: millis }));
        assert(call_ensures(self.sink(), (sent,), ()));
    }
}

/// The global name under which a script finds the API object.
pub fn api_global() -> (name: &'static str)
    ensures
        name@ == "api"@,
{
    "api"
}

/// The name of the API object's one member.
pub fn api_member() -> (name: &'static str)
    ensures
        name@ == "delayed"@,
{
    "delayed"
}

/// The name of the global function that a script is entered through.
pub fn entry_point() -> (name: &'static str)
    ensures
        name@ == "main"@,
{
    "main"
}

/// The one field of the table that the entry point is called with: its name,
/// `phrase`, and its value, the whole command of the invocation as it was
/// dispatched.
pub fn entry_argument<'a>(invocation: &'a Invocation) -> (field: (&'static str, &'a str))
    ensures
        field.0@ == "phrase"@,
        field.1@ == invocation@.command,
{
    ("phrase", invocation.command())
}

/// Whether a step of the top-level phase ended as such a step can: well, or
/// with a load error.
pub open spec fn load_result<T>(r: Result<T, Error>) -> bool {
    match r {
        Ok(_) => true,
        Err(e) => e@ is ScriptLoad,
    }
}

/// Whether a step of the entry-point phase ended as such a step can: well, or
/// with an execution error.
pub open spec fn execution_result<T>(r: Result<T, Error>) -> bool {
    match r {
        Ok(_) => true,
        Err(e) => e@ is ScriptExecution,
    }
}

/// Whether `failure` is what a script can end with: nothing, or an error of
/// its top-level code or of its entry point.
pub open spec fn script_result(failure: Option<ErrorView>) -> bool {
    match failure {
        None => true,
        Some(ErrorView::ScriptLoad { .. }) => true,
        Some(ErrorView::ScriptExecution { .. }) => true,
        Some(_) => false,
    }
}

/// The phase that an invocation ends in when its script was read and ended
/// with `failure`.
pub open spec fn phase_after_script(failure: Option<ErrorView>) -> Phase {
    match failure {
        None => Phase::Initializing.next().next(),
        Some(ErrorView::ScriptExecution { .. }) => Phase::Initializing.next().fail(),
        Some(_) => Phase::Initializing.fail(),
    }
}

/// The error of a step of the top-level phase.
pub fn load_step<T>(step: Result<T, String>) -> (r: Result<T, Error>)
    ensures
        match (step, r) {
            (Ok(value), Ok(kept)) => value == kept,
            (Err(report), Err(e)) => e@ == (ErrorView::ScriptLoad { report: report@ }),
            _ => false,
        },
{
    match step {
        Ok(value) => Ok(value),
        Err(report) => Err(Error::ScriptLoad { report }),
    }
}

/// The error of a step of the entry-point phase.
pub fn execution_step<T>(step: Result<T, String>) -> (r: Result<T, Error>)
    ensures
        match (step, r) {
            (Ok(value), Ok(kept)) => value == kept,
            (Err(report), Err(e)) => e@ == (ErrorView::ScriptExecution { report: report@ }),
            _ => false,
        },
{
    match step {
        Ok(value) => Ok(value),
        Err(report) => Err(Error::ScriptExecution { report }),
    }
}

impl<S> AppHost<S> where S: Fn(Delayed) + Send + Sync {
    /// The API object of an invocation: it serves the app that the invocation
    /// runs, and hands delayed tasks to the sink of this host.
    pub fn api_for<'a>(&'a self, invocation: &'a Invocation) -> (api: Api<'a, S>)
        ensures
            api.app() == invocation@.app_id,
            api.sink() == self.sink(),
    {
        Api::serving(invocation.app_id(), self.sink_ref())
    }

    /// Runs a dispatched invocation to its end. `script` is what came of
    /// reading the app's script: its source, or the error of the read.
    ///
    /// Where the script could not be read the invocation fails with that
    /// error and no sandbox is made. Otherwise the script runs in a sandbox
    /// made for this call alone: first its top-level code, with the API
    /// object of the invocation bound to the global `api`, then its global
    /// function `main`, which is handed a table whose field `phrase` is the
    /// command. An error of the script ends the invocation as failed; it is
    /// reported in the invocation and touches neither the host nor its
    /// caller.
    ///
    /// An invocation that is not fresh is handed back as it is.
    pub fn invoke_app(&self, invocation: Invocation, script: Result<String, Error>) -> (done:
        Invocation)
        ensures
            done@.app_id == invocation@.app_id,
            done@.command == invocation@.command,
            invocation@.phase != Phase::Idle ==> done@ == invocation@,
            invocation@.phase == Phase::Idle ==> {
                &&& done@.phase.is_terminal()
                &&& done@.failure is Some <==> done@.phase == Phase::Failed
                &&& match script {
                    Err(e) => done@.phase == Phase::Failed && done@.failure == Some(e@),
                    Ok(_) => script_result(done@.failure) && done@.phase == phase_after_script(
                        done@.failure,
                    ),
                }
            },
    {
        match invocation.phase() {
            Phase::Idle => {},
            _ => {
                return invocation;
            },
        }
        let loading = Phase::Idle.advanced();
        match script {
            Err(e) => invocation.arrived(loading.failed(), Some(e)),
            Ok(source) => {
                let initializing = loading.advanced();
                let runtime = fresh_runtime();
                let ended = in_context(&runtime, self, &invocation, source.as_str());
                match ended {
                    Ok(()) => invocation.arrived(initializing.advanced().advanced(), None),
                    Err(e) => {
                        let phase = match e {
                            Error::ScriptExecution { .. } => initializing.advanced().failed(),
                            _ => initializing.failed(),
                        };
                        invocation.arrived(phase, Some(e))
                    },
                }
            },
        }
    }

    /// What runs inside the sandbox: opens the scope that the API object's
    /// function lives in.
    fn run_in_context<'lua, 'a>(
        &'a self,
        sandbox: rlua::Context<'lua>,
        invocation: &'a Invocation,
        source: &'a str,
    ) -> (r: Result<(), Error>)
        ensures
            script_result(view_of(r.err())),
    {
        in_scope(sandbox, self, invocation, source)
    }

    /// What runs inside the scope: the top-level phase, and after it the
    /// entry-point phase.
    fn run_in_scope<'lua, 'scope>(
        &'scope self,
        sandbox: rlua::Context<'lua>,
        scope: &rlua::Scope<'lua, 'scope>,
        invocation: &'scope Invocation,
        source: &str,
    ) -> (r: Result<(), Error>)
        ensures
            script_result(view_of(r.err())),
    {
        match self.initialize(sandbox, scope, invocation, source) {
            Err(e) => Err(e),
            Ok(globals) => call_entry_point(sandbox, &globals, invocation),
        }
    }

    /// The top-level phase: binds the API object of the invocation to the
    /// global `api`, then runs the script's top-level code once. Hands back
    /// the table of the sandbox's globals. Whatever fails here is a load
    /// error.
    fn initialize<'lua, 'scope>(
        &'scope self,
        sandbox: rlua::Context<'lua>,
        scope: &rlua::Scope<'lua, 'scope>,
        invocation: &'scope Invocation,
        source: &str,
    ) -> (r: Result<rlua::Table<'lua>, Error>)
        ensures
            load_result(r),
    {
        let api_table = match load_step(new_table(sandbox)) {
            Ok(table) => table,
            Err(e) => {
                return Err(e);
            },
        };
        let delayed = match load_step(delayed_function(scope, self.api_for(invocation))) {
            Ok(function) => function,
            Err(e) => {
                return Err(e);
            },
        };
        match load_step(set_function(&api_table, api_member(), delayed)) {
            Ok(()) => {},
            Err(e) => {
                return Err(e);
            },
        }
        let globals = global_table(sandbox);
        match load_step(set_table(&globals, api_global(), api_table)) {
            Ok(()) => {},
            Err(e) => {
                return Err(e);
            },
        }
        match load_step(run_source(sandbox, source)) {
            Ok(()) => Ok(globals),
            Err(e) => Err(e),
        }
    }
}

/// The entry-point phase: looks up the global function `main` and calls it
/// with a table whose one field is the entry argument of the invocation.
/// Whatever fails here is an execution error.
fn call_entry_point<'lua>(
    sandbox: rlua::Context<'lua>,
    globals: &rlua::Table<'lua>,
    invocation: &Invocation,
) -> (r: Result<(), Error>)
    ensures
        execution_result(r),
{
    let main = match execution_step(function_named(globals, entry_point())) {
        Ok(function) => function,
        Err(e) => {
            return Err(e);
        },
    };
    let args = match execution_step(new_table(sandbox)) {
        Ok(table) => table,
        Err(e) => {
            return Err(e);
        },
    };
    let field = entry_argument(invocation);
    match execution_step(set_text(&args, field.0, field.1)) {
        Ok(()) => {},
        Err(e) => {
            return Err(e);
        },
    }
    execution_step(call_with(&main, args))
}

#[verifier::external_type_specification]
#[verifier::external_body]
pub struct ExLua(rlua::Lua);

#[verifier::external_type_specification]
#[verifier::external_body]
pub struct ExLuaContext<'lua>(rlua::Context<'lua>);

#[verifier::external_type_specification]
#[verifier::external_body]
pub struct ExLuaScope<'lua, 'scope>(rlua::Scope<'lua, 'scope>);

#[verifier::external_type_specification]
#[verifier::external_body]
pub struct ExLuaTable<'lua>(rlua::Table<'lua>);

#[verifier::external_type_specification]
#[verifier::external_body]
pub struct ExLuaFunction<'lua>(rlua::Function<'lua>);

/// `rlua::Lua::new`: a new Lua state with the standard library, without the
/// debug library. Nothing is claimed of it.
#[verifier::external_body]
fn fresh_runtime() -> rlua::Lua {
    rlua::Lua::new()
}

/// `rlua::Lua::context`: calls the closure once with the context of the
/// state and returns what the closure returned. The closure is
/// `run_in_context`, so the result is one that it can give.
#[verifier::external_body]
fn in_context<S>(
    runtime: &rlua::Lua,
    host: &AppHost<S>,
    invocation: &Invocation,
    source: &str,
) -> (r: Result<(), Error>) where S: Fn(Delayed) + Send + Sync
    ensures
        script_result(view_of(r.err())),
{
    runtime.context(|sandbox| host.run_in_context(sandbox, invocation, source))
}

/// `rlua::Context::scope`: calls the closure once with a new scope and
/// returns what the closure returned; functions made through the scope stop
/// working when the call ends. The closure is `run_in_scope`, so the result
/// is one that it can give.
#[verifier::external_body]
fn in_scope<'lua, 'a, S>(
    sandbox: rlua::Context<'lua>,
    host: &'a AppHost<S>,
    invocation: &'a Invocation,
    source: &'a str,
) -> (r: Result<(), Error>) where S: Fn(Delayed) + Send + Sync
    ensures
        script_result(view_of(r.err())),
{
    sandbox.scope(|scope| host.run_in_scope(sandbox, scope, invocation, source))
}

/// `rlua::Context::create_table`: a new empty table, or the runtime's error
/// as the text that the crate prints for it. Nothing is claimed of either.
#[verifier::external_body]
fn new_table<'lua>(sandbox: rlua::Context<'lua>) -> Result<rlua::Table<'lua>, String> {
    match sandbox.create_table() {
        Ok(table) => Ok(table),
        Err(e) => Err(e.to_string()),
    }
}

/// `rlua::Scope::create_function`: a Lua function that takes one integer and
/// calls `api.delayed` with it, valid until the scope ends; or the runtime's
/// error as text. Nothing is claimed of either.
#[verifier::external_body]
fn delayed_function<'lua, 'scope, S>(
    scope: &rlua::Scope<'lua, 'scope>,
    api: Api<'scope, S>,
) -> Result<rlua::Function<'lua>, String> where S: Fn(Delayed) + Send + Sync {
    match scope.create_function(move |_sandbox, millis: u64| Ok(api.delayed(millis))) {
        Ok(function) => Ok(function),
        Err(e) => Err(e.to_string()),
    }
}

/// `rlua::Table::set`, with a function as the value. It is taken only for
/// the member of the API object, so the key is `delayed`. Nothing is claimed
/// of the result.
#[verifier::external_body]
fn set_function<'lua>(table: &rlua::Table<'lua>, key: &str, value: rlua::Function<'lua>) -> Result<
    (),
    String,
>
    requires
        key@ == "delayed"@,
{
    match table.set(key, value) {
        Ok(()) => Ok(()),
        Err(e) => Err(e.to_string()),
    }
}

/// `rlua::Table::set`, with a table as the value. It is taken only to bind
/// the API object, so the key is `api`. Nothing is claimed of the result.
#[verifier::external_body]
fn set_table<'lua>(table: &rlua::Table<'lua>, key: &str, value: rlua::Table<'lua>) -> Result<
    (),
    String,
>
    requires
        key@ == "api"@,
{
    match table.set(key, value) {
        Ok(()) => Ok(()),
        Err(e) => Err(e.to_string()),
    }
}

/// `rlua::Table::set`, with a string as the value. It is taken only for the
/// entry argument, so the key is `phrase`. Nothing is claimed of the result.
#[verifier::external_body]
fn set_text<'lua>(table: &rlua::Table<'lua>, key: &str, value: &str) -> Result<(), String>
    requires
        key@ == "phrase"@,
{
    match table.set(key, value) {
        Ok(()) => Ok(()),
        Err(e) => Err(e.to_string()),
    }
}

/// `rlua::Context::globals`: a handle to the table of the sandbox's global
/// variables. Nothing is claimed of it.
#[verifier::external_body]
fn global_table<'lua>(sandbox: rlua::Context<'lua>) -> rlua::Table<'lua> {
    sandbox.globals()
}

/// `rlua::Context::load` and `rlua::Chunk::exec`: compiles the source and
/// runs it once, with no arguments. Nothing is claimed of the result, which
/// depends on the script.
#[verifier::external_body]
fn run_source<'lua>(sandbox: rlua::Context<'lua>, source: &str) -> Result<(), String> {
    match sandbox.load(source).exec() {
        Ok(()) => Ok(()),
        Err(e) => Err(e.to_string()),
    }
}

/// `rlua::Table::get`, for a value that is a function. It is taken only for
/// the entry point, so the name is `main`. Nothing is claimed of the result.
#[verifier::external_body]
fn function_named<'lua>(table: &rlua::Table<'lua>, name: &str) -> Result<
    rlua::Function<'lua>,
    String,
>
    requires
        name@ == "main"@,
{
    match table.get::<_, rlua::Function>(name) {
        Ok(function) => Ok(function),
        Err(e) => Err(e.to_string()),
    }
}

/// `rlua::Function::call`, with one table as the argument and no result
/// taken. Nothing is claimed of the outcome, which depends on the script.
#[verifier::external_body]
fn call_with<'lua>(function: &rlua::Function<'lua>, args: rlua::Table<'lua>) -> Result<(), String> {
    match function.call::<_, ()>(args) {
        Ok(()) => Ok(()),
        Err(e) => Err(e.to_string()),
    }
}

} // verus!
