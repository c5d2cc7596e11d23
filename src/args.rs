//! Building the argument sequences handed to the exec tool.
use vstd::prelude::*;
use crate::flags::{Attach, attach_text};

verus! {

/// The characters of each string of a sequence.
pub open spec fn str_views(v: Seq<String>) -> Seq<Seq<char>> {
    v.map_values(|s: String| s@)
}

/// The characters of an optional string.
pub open spec fn opt_view(o: Option<String>) -> Option<Seq<char>> {
    match o {
        Some(s) => Some(s@),
        None => None,
    }
}

/// The tokens `str::split_whitespace` yields for a string.
pub uninterp spec fn whitespace_tokens(s: Seq<char>) -> Seq<Seq<char>>;

/// `flag value` when a value is present, nothing otherwise.
pub open spec fn opt_pair(flag: Seq<char>, o: Option<Seq<char>>) -> Seq<Seq<char>> {
    match o {
        Some(x) => seq![flag, x],
        None => Seq::empty(),
    }
}

/// The attachment token, when one is selected.
pub open spec fn attach_part(a: Option<Attach>) -> Seq<Seq<char>> {
    match a {
        Some(t) => seq![attach_text(t)],
        None => Seq::empty(),
    }
}

/// `--namespace <ns> --context <cluster> exec`.
pub open spec fn exec_head(ns: Seq<char>, cluster: Seq<char>) -> Seq<Seq<char>> {
    seq!["--namespace"@, ns, "--context"@, cluster, "exec"@]
}

/// The arguments of a foreground exec: the impersonation identity comes
/// before the container, and `--` right before the command.
pub open spec fn foreground_args_spec(
    ns: Seq<char>,
    cluster: Seq<char>,
    name: Seq<char>,
    attach: Option<Attach>,
    user: Option<Seq<char>>,
    container: Option<Seq<char>>,
    command: Seq<Seq<char>>,
) -> Seq<Seq<char>> {
    exec_head(ns, cluster) + attach_part(attach) + seq![name] + opt_pair("--as"@, user) + opt_pair(
        "-c"@,
        container,
    ) + seq!["--"@] + command
}

/// The whole command line of a terminal exec: the launcher's tokens, the
/// binary, then the exec arguments with the container before the
/// impersonation identity, and `--` right before the command.
pub open spec fn terminal_args_spec(
    launcher: Seq<char>,
    binary: Seq<char>,
    ns: Seq<char>,
    cluster: Seq<char>,
    name: Seq<char>,
    attach: Option<Attach>,
    user: Option<Seq<char>>,
    container: Option<Seq<char>>,
    command: Seq<Seq<char>>,
) -> Seq<Seq<char>> {
    whitespace_tokens(launcher) + seq![binary] + exec_head(ns, cluster) + attach_part(attach)
        + seq![name] + opt_pair("-c"@, container) + opt_pair("--as"@, user) + seq!["--"@]
        + command
}

/// Relies on str::split_whitespace to split the terminal launcher command
/// into its tokens.
#[verifier::external_body]
fn split_on_whitespace(s: &str) -> (r: Vec<String>)
    ensures
        str_views(r@) == whitespace_tokens(s@),
{
    s.split_whitespace().map(String::from).collect()
}

fn push_text(v: &mut Vec<String>, s: &str)
    ensures
        str_views(final(v)@) == str_views(old(v)@).push(s@),
{
    v.push(String::from_str(s));
    assert(str_views(v@) =~= str_views(old(v)@).push(s@));
}

fn push_opt_pair(v: &mut Vec<String>, flag: &str, o: &Option<String>)
    ensures
        str_views(final(v)@) == str_views(old(v)@) + opt_pair(flag@, opt_view(*o)),
{
    match o {
        Some(x) => {
            push_text(v, flag);
            push_text(v, x.as_str());
        },
        None => {},
    }
    assert(str_views(v@) =~= str_views(old(v)@) + opt_pair(flag@, opt_view(*o)));
}

fn push_all(v: &mut Vec<String>, items: &Vec<String>)
    ensures
        str_views(final(v)@) == str_views(old(v)@) + str_views(items@),
{
    let ghost start = str_views(v@);
    let mut i: usize = 0;
    while i < items.len()
        invariant
            i <= items@.len(),
            str_views(v@) == start + str_views(items@.subrange(0, i as int)),
        decreases items@.len() - i,
    {
        push_text(v, items[i].as_str());
        i = i + 1;
        assert(str_views(items@.subrange(0, i as int)) =~= str_views(
            items@.subrange(0, i - 1 as int),
        ).push(items@[i - 1]@));
        assert(str_views(v@) =~= start + str_views(items@.subrange(0, i as int)));
    }
    assert(items@.subrange(0, i as int) =~= items@);
}

fn push_exec_head(v: &mut Vec<String>, ns: &str, cluster: &str, attach: Option<Attach>, name: &str)
    ensures
        str_views(final(v)@) == str_views(old(v)@) + exec_head(ns@, cluster@) + attach_part(attach)
            + seq![name@],
{
    push_text(v, "--namespace");
    push_text(v, ns);
    push_text(v, "--context");
    push_text(v, cluster);
    push_text(v, "exec");
    match attach {
        Some(a) => {
            let t = a.token();
            push_text(v, t.as_str());
        },
        None => {},
    }
    push_text(v, name);
    assert(str_views(v@) =~= str_views(old(v)@) + exec_head(ns@, cluster@) + attach_part(attach)
        + seq![name@]);
}

/// The arguments of a foreground exec of `command` in pod `name`.
pub fn foreground_args(
    ns: &str,
    cluster: &str,
    name: &str,
    attach: Option<Attach>,
    user: &Option<String>,
    container: &Option<String>,
    command: &Vec<String>,
) -> (r: Vec<String>)
    ensures
        str_views(r@) == foreground_args_spec(
            ns@,
            cluster@,
            name@,
            attach,
            opt_view(*user),
            opt_view(*container),
            str_views(command@),
        ),
{
    let mut v: Vec<String> = Vec::new();
    assert(str_views(v@) =~= Seq::empty());
    push_exec_head(&mut v, ns, cluster, attach, name);
    push_opt_pair(&mut v, "--as", user);
    push_opt_pair(&mut v, "-c", container);
    push_text(&mut v, "--");
    push_all(&mut v, command);
    assert(str_views(v@) =~= foreground_args_spec(
        ns@,
        cluster@,
        name@,
        attach,
        opt_view(*user),
        opt_view(*container),
        str_views(command@),
    ));
    v
}

/// The command line of a terminal exec: the launcher command split on
/// whitespace, followed by the exec tool and its arguments.
pub fn terminal_args(
    launcher: &str,
    binary: &str,
    ns: &str,
    cluster: &str,
    name: &str,
    attach: Option<Attach>,
    user: &Option<String>,
    container: &Option<String>,
    command: &Vec<String>,
) -> (r: Vec<String>)
    ensures
        str_views(r@) == terminal_args_spec(
            launcher@,
            binary@,
            ns@,
            cluster@,
            name@,
            attach,
            opt_view(*user),
            opt_view(*container),
            str_views(command@),
        ),
{
    let mut v = split_on_whitespace(launcher);
    push_text(&mut v, binary);
    push_exec_head(&mut v, ns, cluster, attach, name);
    push_opt_pair(&mut v, "-c", container);
    push_opt_pair(&mut v, "--as", user);
    push_text(&mut v, "--");
    push_all(&mut v, command);
    assert(str_views(v@) =~= terminal_args_spec(
        launcher@,
        binary@,
        ns@,
        cluster@,
        name@,
        attach,
        opt_view(*user),
        opt_view(*container),
        str_views(command@),
    ));
    v
}

/// In a foreground exec, `--` stands right before the command tokens, which
/// end the arguments, whether or not a container or an identity is set.
pub proof fn lemma_foreground_separator(
    ns: Seq<char>,
    cluster: Seq<char>,
    name: Seq<char>,
    attach: Option<Attach>,
    user: Option<Seq<char>>,
    container: Option<Seq<char>>,
    command: Seq<Seq<char>>,
)
    ensures
        ({
            let a = foreground_args_spec(ns, cluster, name, attach, user, container, command);
            &&& a.len() > command.len()
            &&& a[a.len() - command.len() - 1] == "--"@
            &&& a.subrange(a.len() - command.len(), a.len() as int) == command
        }),
{
    let a = foreground_args_spec(ns, cluster, name, attach, user, container, command);
    let p = exec_head(ns, cluster) + attach_part(attach) + seq![name] + opt_pair("--as"@, user)
        + opt_pair("-c"@, container) + seq!["--"@];
    assert(a == p + command);
    assert(a.subrange(a.len() - command.len(), a.len() as int) =~= command);
}

/// In a terminal exec, `--` stands right before the command tokens, which
/// end the command line.
pub proof fn lemma_terminal_separator(
    launcher: Seq<char>,
    binary: Seq<char>,
    ns: Seq<char>,
    cluster: Seq<char>,
    name: Seq<char>,
    attach: Option<Attach>,
    user: Option<Seq<char>>,
    container: Option<Seq<char>>,
    command: Seq<Seq<char>>,
)
    ensures
        ({
            let a = terminal_args_spec(
                launcher,
                binary,
                ns,
                cluster,
                name,
                attach,
                user,
                container,
                command,
            );
            &&& a.len() > command.len()
            &&& a[a.len() - command.len() - 1] == "--"@
            &&& a.subrange(a.len() - command.len(), a.len() as int) == command
        }),
{
    let a = terminal_args_spec(launcher, binary, ns, cluster, name, attach, user, container, command);
    let p = whitespace_tokens(launcher) + seq![binary] + exec_head(ns, cluster) + attach_part(attach)
        + seq![name] + opt_pair("-c"@, container) + opt_pair("--as"@, user) + seq!["--"@];
    assert(a == p + command);
    assert(a.subrange(a.len() - command.len(), a.len() as int) =~= command);
}

/// A terminal exec's command line starts with the launcher command's
/// whitespace-separated tokens, followed at once by the exec tool's binary.
pub proof fn lemma_terminal_launcher_prefix(
    launcher: Seq<char>,
    binary: Seq<char>,
    ns: Seq<char>,
    cluster: Seq<char>,
    name: Seq<char>,
    attach: Option<Attach>,
    user: Option<Seq<char>>,
    container: Option<Seq<char>>,
    command: Seq<Seq<char>>,
)
    ensures
        ({
            let a = terminal_args_spec(
                launcher,
                binary,
                ns,
                cluster,
                name,
                attach,
                user,
                container,
                command,
            );
            let t = whitespace_tokens(launcher);
            &&& a.len() > t.len()
            &&& a.subrange(0, t.len() as int) == t
            &&& a[t.len() as int] == binary
        }),
{
    let a = terminal_args_spec(launcher, binary, ns, cluster, name, attach, user, container, command);
    let t = whitespace_tokens(launcher);
    let rest = exec_head(ns, cluster) + attach_part(attach) + seq![name] + opt_pair("-c"@, container)
        + opt_pair("--as"@, user) + seq!["--"@] + command;
    assert(a == t + (seq![binary] + rest));
    assert(a.subrange(0, t.len() as int) =~= t);
}

} // verus!
