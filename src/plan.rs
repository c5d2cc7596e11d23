//! Validating a target and planning the invocation of the exec tool on it.
use vstd::prelude::*;
use crate::args::{
    foreground_args,
    foreground_args_spec,
    opt_view,
    str_views,
    terminal_args,
    terminal_args_spec,
};
use crate::flags::{attach_of, attach_token, flag_value, resolve_flag, FlagSetting};
use crate::outcome::ExecError;

verus! {

/// The kind of a selected object.
#[derive(Clone, Debug, PartialEq, Eq)]
pub enum ObjectKind {
    Pod,
    /// Any other kind, by its name.
    Other(String),
}

/// A selected object to run a command in.
#[derive(Clone, Debug)]
pub struct Target {
    pub name: String,
    pub namespace: Option<String>,
    pub kind: ObjectKind,
}

/// Configuration for one exec operation; it is read, never changed.
#[derive(Clone, Debug)]
pub struct ExecutionContext {
    /// Path or name of the exec tool; `kubectl` when not set.
    pub binary: Option<String>,
    /// The active cluster context, if any.
    pub context: Option<String>,
    /// An identity to impersonate.
    pub impersonate: Option<String>,
    /// The configured terminal launcher command.
    pub terminal: Option<String>,
}

/// Whether to run in the foreground or in a new terminal.
#[derive(Clone, Debug)]
pub enum Mode {
    /// Run attached and wait for the tool to exit.
    Foreground,
    /// Launch a new terminal; a given launcher command overrides the configured one.
    Terminal(Option<String>),
}

/// What the operator asked to run.
#[derive(Clone, Debug)]
pub struct ExecRequest {
    pub command: Vec<String>,
    pub container: Option<String>,
    pub tty: FlagSetting,
    pub stdin: FlagSetting,
    pub mode: Mode,
}

/// A process to launch: `argv[0]` is the program, the rest its arguments.
#[derive(Clone, Debug)]
pub struct Invocation {
    pub argv: Vec<String>,
    /// Launch without waiting for the process to finish.
    pub detached: bool,
    /// A line to show the operator before launching.
    pub notice: Option<String>,
}

pub open spec fn default_binary() -> Seq<char> {
    "kubectl"@
}

pub open spec fn default_launcher() -> Seq<char> {
    "xterm -e"@
}

/// The exec tool's binary: the configured one, else `kubectl`.
pub open spec fn binary_text(ctx: ExecutionContext) -> Seq<char> {
    match ctx.binary {
        Some(b) => b@,
        None => default_binary(),
    }
}

/// The launcher command: the one given with the request, else the
/// configured one, else `xterm -e`.
pub open spec fn launcher_text(given: Option<String>, ctx: ExecutionContext) -> Seq<char> {
    match given {
        Some(t) => t@,
        None => match ctx.terminal {
            Some(t) => t@,
            None => default_launcher(),
        },
    }
}

/// The notice shown when a terminal is launched for `name`.
pub open spec fn starting_text(name: Seq<char>) -> Seq<char> {
    "Starting on "@ + name + " in terminal"@
}

/// The command line planned for a pod with a namespace under cluster context `cluster`.
pub open spec fn planned_argv(
    ctx: ExecutionContext,
    cluster: Seq<char>,
    target: Target,
    req: ExecRequest,
) -> Seq<Seq<char>> {
    let attach = attach_of(flag_value(req.tty), flag_value(req.stdin));
    let ns = target.namespace.unwrap()@;
    match req.mode {
        Mode::Foreground => seq![binary_text(ctx)] + foreground_args_spec(
            ns,
            cluster,
            target.name@,
            attach,
            opt_view(ctx.impersonate),
            opt_view(req.container),
            str_views(req.command@),
        ),
        Mode::Terminal(given) => terminal_args_spec(
            launcher_text(given, ctx),
            binary_text(ctx),
            ns,
            cluster,
            target.name@,
            attach,
            opt_view(ctx.impersonate),
            opt_view(req.container),
            str_views(req.command@),
        ),
    }
}

/// A target that exec can run on, given that it is a pod.
pub open spec fn target_ok(target: Target) -> bool {
    target.kind is Pod ==> target.namespace is Some
}

/// The exec tool's binary for this context.
pub fn binary_name(ctx: &ExecutionContext) -> (r: String)
    ensures
        r@ == binary_text(*ctx),
{
    match &ctx.binary {
        Some(b) => b.clone(),
        None => String::from_str("kubectl"),
    }
}

/// Picks the launcher command for a terminal exec.
pub fn resolve_launcher(given: &Option<String>, ctx: &ExecutionContext) -> (r: String)
    ensures
        r@ == launcher_text(*given, *ctx),
{
    match given {
        Some(t) => t.clone(),
        None => match &ctx.terminal {
            Some(t) => t.clone(),
            None => String::from_str("xterm -e"),
        },
    }
}

/// The notice for a terminal launch on `name`.
pub fn starting_message(name: &str) -> (r: String)
    ensures
        r@ == starting_text(name@),
{
    let mut m = String::from_str("Starting on ");
    m.append(name);
    m.append(" in terminal");
    m
}

/// Plans an exec on one target: without an active context, or on an
/// object that is not a pod, nothing is to be launched and the error says
/// why; otherwise the invocation to launch.
pub fn plan_exec(ctx: &ExecutionContext, target: &Target, req: &ExecRequest) -> (r: Result<
    Invocation,
    ExecError,
>)
    requires
        target_ok(*target),
        req.command@.len() > 0,
    ensures
        ctx.context is None ==> r == Err::<Invocation, ExecError>(ExecError::NoContext),
        ctx.context is Some && !(target.kind is Pod) ==> r == Err::<Invocation, ExecError>(
            ExecError::NotPod,
        ),
        ctx.context is Some && target.kind is Pod ==> (r matches Ok(inv) && str_views(inv.argv@)
            == planned_argv(*ctx, ctx.context.unwrap()@, *target, *req) && inv.detached
            == (req.mode is Terminal) && match req.mode {
            Mode::Foreground => inv.notice is None,
            Mode::Terminal(_) => inv.notice matches Some(n) && n@ == starting_text(target.name@),
        }),
{
    let cluster = match &ctx.context {
        Some(c) => c,
        None => {
            return Err(ExecError::NoContext);
        },
    };
    let ns = match &target.kind {
        ObjectKind::Pod => match &target.namespace {
            Some(ns) => ns,
            // ruled out by `target_ok`
            None => {
                return Err(ExecError::NotPod);
            },
        },
        ObjectKind::Other(_) => {
            return Err(ExecError::NotPod);
        },
    };
    let attach = attach_token(resolve_flag(req.tty), resolve_flag(req.stdin));
    let binary = binary_name(ctx);
    match &req.mode {
        Mode::Foreground => {
            let args = foreground_args(
                ns.as_str(),
                cluster.as_str(),
                target.name.as_str(),
                attach,
                &ctx.impersonate,
                &req.container,
                &req.command,
            );
            let mut argv: Vec<String> = Vec::new();
            argv.push(binary);
            let mut rest = args;
            argv.append(&mut rest);
            assert(str_views(argv@) =~= seq![binary_text(*ctx)] + str_views(args@));
            Ok(Invocation { argv, detached: false, notice: None })
        },
        Mode::Terminal(given) => {
            let launcher = resolve_launcher(given, ctx);
            let argv = terminal_args(
                launcher.as_str(),
                binary.as_str(),
                ns.as_str(),
                cluster.as_str(),
                target.name.as_str(),
                attach,
                &ctx.impersonate,
                &req.container,
                &req.command,
            );
            Ok(Invocation { argv, detached: true, notice: Some(starting_message(target.name.as_str())) })
        },
    }
}

} // verus!
