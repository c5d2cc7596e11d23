//! Terminal and stdin attachment flags.
use vstd::prelude::*;

verus! {

/// How a boolean attachment flag appeared on the command line.
#[derive(Clone, Copy, Debug, PartialEq, Eq, Structural)]
pub enum FlagSetting {
    /// The flag was not given at all.
    Absent,
    /// The flag was given without a value.
    Bare,
    /// The flag was given with an explicit value.
    Given(bool),
}

/// The value a flag stands for: true unless it was given an explicit `false`.
pub open spec fn flag_value(s: FlagSetting) -> bool {
    match s {
        FlagSetting::Absent => true,
        FlagSetting::Bare => true,
        FlagSetting::Given(b) => b,
    }
}

/// Resolves a flag setting; both an absent and a bare flag mean `true`.
pub fn resolve_flag(s: FlagSetting) -> (r: bool)
    ensures
        r == flag_value(s),
{
    match s {
        FlagSetting::Absent => true,
        FlagSetting::Bare => true,
        FlagSetting::Given(b) => b,
    }
}

/// The attachment token handed to the exec tool.
#[derive(Clone, Copy, Debug, PartialEq, Eq, Structural)]
pub enum Attach {
    /// Both a terminal and stdin: `-it`.
    Both,
    /// A terminal only: `-t`.
    TtyOnly,
    /// Stdin only: `-i`.
    StdinOnly,
}

/// Which token, if any, a (tty, stdin) pair selects.
pub open spec fn attach_of(tty: bool, stdin: bool) -> Option<Attach> {
    if tty && stdin {
        Some(Attach::Both)
    } else if tty {
        Some(Attach::TtyOnly)
    } else if stdin {
        Some(Attach::StdinOnly)
    } else {
        None
    }
}

/// The text of an attachment token.
pub open spec fn attach_text(a: Attach) -> Seq<char> {
    match a {
        Attach::Both => "-it"@,
        Attach::TtyOnly => "-t"@,
        Attach::StdinOnly => "-i"@,
    }
}

/// Collapses the two attachment flags into at most one token.
pub fn attach_token(tty: bool, stdin: bool) -> (r: Option<Attach>)
    ensures
        r == attach_of(tty, stdin),
{
    match (tty, stdin) {
        (true, true) => Some(Attach::Both),
        (true, false) => Some(Attach::TtyOnly),
        (false, true) => Some(Attach::StdinOnly),
        (false, false) => None,
    }
}

impl Attach {
    /// The token as it is passed to the exec tool.
    pub fn token(&self) -> (r: String)
        ensures
            r@ == attach_text(*self),
    {
        match self {
            Attach::Both => String::from_str("-it"),
            Attach::TtyOnly => String::from_str("-t"),
            Attach::StdinOnly => String::from_str("-i"),
        }
    }
}

/// Every combination of the two flags selects exactly one of the four
/// outcomes: both set gives the combined token, one set gives that flag's
/// own token, neither gives no token.
pub proof fn lemma_attach_table(tty: bool, stdin: bool)
    ensures
        (attach_of(tty, stdin) == Some(Attach::Both)) <==> (tty && stdin),
        (attach_of(tty, stdin) == Some(Attach::TtyOnly)) <==> (tty && !stdin),
        (attach_of(tty, stdin) == Some(Attach::StdinOnly)) <==> (!tty && stdin),
        (attach_of(tty, stdin) is None) <==> (!tty && !stdin),
{
}

/// A flag resolves to `false` only when it was given the explicit value `false`.
pub proof fn lemma_flag_default_true(s: FlagSetting)
    ensures
        !flag_value(s) <==> s == FlagSetting::Given(false),
{
}

} // verus!
