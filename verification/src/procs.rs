//! The role framework: the capability pair every role declares, the fixed
//! role identities, and the uniform parsing and printing of the control-end
//! argv flags a child uses to reclaim its inherited descriptors.

pub mod ipc;
pub mod launcher;
pub mod leader;
pub mod logger;
pub mod supervisor;

use vstd::prelude::*;
use vstd::string::{StrSliceExecFns, StringExecFns};

use crate::dec::{
    all_digits, dec_digits, dec_int, dec_val, lemma_dec_digits_all_digits, lemma_dec_val_of_digits,
    parse_u64,
};
use crate::fork::StdIoConf;

verus! {

/// The flag under which a child is told its inbound control descriptor.
pub const CONTROL_IN: &'static str = "control-in";

/// The flag under which a child is told its outbound control descriptor.
pub const CONTROL_OUT: &'static str = "control-out";

/// The subcommand that starts the whole tree.
pub const INIT: &'static str = "init";

/// Whether a role has an inbound control channel.
pub trait CtlIn: Sized {
    spec fn spec_has_control_in() -> bool;

    fn has_control_in() -> (b: bool)
        ensures
            b == Self::spec_has_control_in(),
    ;
}

/// Whether a role has an outbound control channel.
pub trait CtlOut: Sized {
    spec fn spec_has_control_out() -> bool;

    fn has_control_out() -> (b: bool)
        ensures
            b == Self::spec_has_control_out(),
    ;
}

pub struct HasCtlIn;

impl CtlIn for HasCtlIn {
    open spec fn spec_has_control_in() -> bool {
        true
    }

    fn has_control_in() -> (b: bool)
        ensures
            b == Self::spec_has_control_in(),
    {
        true
    }
}

pub struct NoCtlIn;

impl CtlIn for NoCtlIn {
    open spec fn spec_has_control_in() -> bool {
        false
    }

    fn has_control_in() -> (b: bool)
        ensures
            b == Self::spec_has_control_in(),
    {
        false
    }
}

pub struct HasCtlOut;

impl CtlOut for HasCtlOut {
    open spec fn spec_has_control_out() -> bool {
        true
    }

    fn has_control_out() -> (b: bool)
        ensures
            b == Self::spec_has_control_out(),
    {
        true
    }
}

pub struct NoCtlOut;

impl CtlOut for NoCtlOut {
    open spec fn spec_has_control_out() -> bool {
        false
    }

    fn has_control_out() -> (b: bool)
        ensures
            b == Self::spec_has_control_out(),
    {
        false
    }
}

/// The common contract of a role: a fixed name, the capability pair given by
/// the type parameters, and a standard-stream configuration the spawner
/// applies.
pub trait Process<I: CtlIn, O: CtlOut>: Sized {
    spec fn spec_name() -> Seq<char>;

    spec fn spec_stdio() -> StdIoConf;

    fn name() -> (s: &'static str)
        ensures
            s@ == Self::spec_name(),
    ;

    fn get_stdio() -> (r: StdIoConf)
        ensures
            r == Self::spec_stdio(),
    ;

    fn has_control_in() -> (b: bool)
        ensures
            b == I::spec_has_control_in(),
    {
        I::has_control_in()
    }

    fn has_control_out() -> (b: bool)
        ensures
            b == O::spec_has_control_out(),
    {
        O::has_control_out()
    }
}

/// The five fixed role identities, as values.
#[derive(Clone, Copy, Debug, PartialEq, Eq, Structural)]
pub enum Role {
    Logger,
    Leader,
    Launcher,
    Ipc,
    Supervisor,
}

/// The subcommand name of each role.
pub open spec fn spec_role_name(r: Role) -> Seq<char> {
    match r {
        Role::Logger => "logger"@,
        Role::Leader => "leader"@,
        Role::Launcher => "launcher"@,
        Role::Ipc => "ipc"@,
        Role::Supervisor => "supervisor"@,
    }
}

/// The capitalized name of each role, used in diagnostics.
pub open spec fn spec_role_display(r: Role) -> Seq<char> {
    match r {
        Role::Logger => "Logger"@,
        Role::Leader => "Leader"@,
        Role::Launcher => "Launcher"@,
        Role::Ipc => "Ipc"@,
        Role::Supervisor => "Supervisor"@,
    }
}

impl Role {
    pub fn name(&self) -> (s: &'static str)
        ensures
            s@ == spec_role_name(*self),
    {
        match self {
            Role::Logger => "logger",
            Role::Leader => "leader",
            Role::Launcher => "launcher",
            Role::Ipc => "ipc",
            Role::Supervisor => "supervisor",
        }
    }

    pub fn display_name(&self) -> (s: &'static str)
        ensures
            s@ == spec_role_display(*self),
    {
        match self {
            Role::Logger => "Logger",
            Role::Leader => "Leader",
            Role::Launcher => "Launcher",
            Role::Ipc => "Ipc",
            Role::Supervisor => "Supervisor",
        }
    }
}

/// The text before the digits in a control-end flag: `--<flag>=`.
pub open spec fn spec_ctl_prefix(flag: Seq<char>) -> Seq<char> {
    "--"@ + flag + "="@
}

/// The whole flag argument: `--<flag>=<fd>`.
pub open spec fn spec_ctl_arg(flag: Seq<char>, fd: int) -> Seq<char> {
    spec_ctl_prefix(flag) + dec_int(fd)
}

/// Prints the argv flag carrying a raw descriptor number for a child.
pub fn format_ctl_arg(flag: &str, fd: i32) -> (r: String)
    ensures
        r@ == spec_ctl_arg(flag@, fd as int),
{
    proof {
        reveal_strlit("--");
        reveal_strlit("=");
    }
    let mut s = String::from_str("--");
    s.append(flag);
    s.append("=");
    crate::dec::append_i64(&mut s, fd as i64);
    proof {
        assert(s@ =~= spec_ctl_arg(flag@, fd as int));
    }
    s
}

/// What a successful parse of a control-end flag requires of the argument
/// text: the exact `--<flag>=` prefix, then digits encoding a value a
/// descriptor number can hold.
pub open spec fn ctl_arg_parses(arg: Seq<char>, flag: Seq<char>) -> bool {
    let np = flag.len() + 3;
    &&& arg.len() > np
    &&& arg.take(np as int) == spec_ctl_prefix(flag)
    &&& all_digits(arg.skip(np as int))
    &&& dec_val(arg.skip(np as int)) <= i32::MAX
}

/// Reads the raw descriptor number back out of a control-end flag argument.
/// Succeeds exactly on `--<flag>=<digits>` with a value a descriptor number
/// can hold.
pub fn parse_ctl_arg(arg: &str, flag: &str) -> (r: Option<i32>)
    ensures
        r is Some <==> ctl_arg_parses(arg@, flag@),
        r matches Some(v) ==> v == dec_val(arg@.skip(flag@.len() + 3 as int)),
{
    proof {
        reveal_strlit("--");
        reveal_strlit("=");
    }
    let flag_len = flag.unicode_len();
    let arg_len = arg.unicode_len();
    if arg_len < 4 || flag_len > arg_len - 4 {
        return None;
    }
    let np = flag_len + 3;
    let ghost prefix = spec_ctl_prefix(flag@);
    let mut i: usize = 0;
    while i < np
        invariant
            0 <= i <= np,
            np == flag_len + 3,
            flag_len == flag@.len(),
            arg_len == arg@.len(),
            arg_len > np,
            prefix == spec_ctl_prefix(flag@),
            prefix.len() == np,
            "--"@ == seq!['-', '-'],
            "="@ == seq!['='],
            forall|j: int| 0 <= j < i ==> arg@[j] == prefix[j],
        decreases np - i,
    {
        let expected: char = if i < 2 {
            '-'
        } else if i < 2 + flag_len {
            flag.get_char(i - 2)
        } else {
            '='
        };
        proof {
            assert(prefix[i as int] == expected);
        }
        let got = arg.get_char(i);
        if got != expected {
            proof {
                assert(arg@.take(np as int)[i as int] != prefix[i as int]);
            }
            return None;
        }
        i = i + 1;
    }
    proof {
        assert(arg@.take(np as int) =~= prefix);
    }
    let digits = arg.substring_char(np, arg_len);
    proof {
        assert(digits@ =~= arg@.skip(np as int));
    }
    match parse_u64(digits) {
        Some(v) => {
            if v <= i32::MAX as u64 {
                Some(#[verifier::truncate] (v as i32))
            } else {
                None
            }
        },
        None => None,
    }
}

/// Printing a control-end flag and parsing it back yields the descriptor
/// number again, for every number a descriptor can hold.
pub proof fn lemma_ctl_arg_round_trip(flag: Seq<char>, fd: int)
    requires
        0 <= fd <= i32::MAX,
    ensures
        ctl_arg_parses(spec_ctl_arg(flag, fd), flag),
        dec_val(spec_ctl_arg(flag, fd).skip(flag.len() + 3 as int)) == fd,
{
    reveal_strlit("--");
    reveal_strlit("=");
    let arg = spec_ctl_arg(flag, fd);
    let np = flag.len() + 3;
    lemma_dec_digits_all_digits(fd as nat);
    lemma_dec_val_of_digits(fd as nat);
    assert(arg.take(np as int) =~= spec_ctl_prefix(flag));
    assert(arg.skip(np as int) =~= dec_digits(fd as nat));
}

} // verus!
