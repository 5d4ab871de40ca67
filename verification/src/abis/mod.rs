//! Calling conventions and the platforms they are defined on.

pub mod c;

use vstd::prelude::*;
use vstd::string::*;

verus! {

/// A rule for passing arguments and results between caller and callee.
#[derive(Debug, Clone, Copy, PartialEq, Eq, Structural, Hash)]
pub enum CallingConvention {
    /// The platform's default for system interfaces.
    System,
    /// The 64-bit Windows convention.
    Win64,
    /// The 64-bit System V convention.
    Sysv64,
    /// The ARM procedure call standard.
    Aapcs,
    /// The platform's default for C.
    C,
    /// The caller cleans the stack.
    Cdecl,
    /// The callee cleans the stack.
    Stdcall,
    /// The first arguments travel in registers.
    Fastcall,
    /// Vector arguments travel in registers.
    Vectorcall,
}

impl CallingConvention {
    /// The name the convention goes by in test names and messages.
    pub open spec fn name_text(self) -> Seq<char> {
        match self {
            CallingConvention::System => "system"@,
            CallingConvention::Win64 => "win64"@,
            CallingConvention::Sysv64 => "sysv64"@,
            CallingConvention::Aapcs => "aapcs"@,
            CallingConvention::C => "c"@,
            CallingConvention::Cdecl => "cdecl"@,
            CallingConvention::Stdcall => "stdcall"@,
            CallingConvention::Fastcall => "fastcall"@,
            CallingConvention::Vectorcall => "vectorcall"@,
        }
    }

    /// The name the convention goes by in test names and messages.
    pub fn name(&self) -> (name: &'static str)
        ensures
            name@ == self.name_text(),
    {
        match self {
            CallingConvention::System => "system",
            CallingConvention::Win64 => "win64",
            CallingConvention::Sysv64 => "sysv64",
            CallingConvention::Aapcs => "aapcs",
            CallingConvention::C => "c",
            CallingConvention::Cdecl => "cdecl",
            CallingConvention::Stdcall => "stdcall",
            CallingConvention::Fastcall => "fastcall",
            CallingConvention::Vectorcall => "vectorcall",
        }
    }
}

/// No two conventions go by the same name, and no name holds an underscore.
pub proof fn lemma_convention_names(first: CallingConvention, second: CallingConvention)
    ensures
        first.name_text() == second.name_text() ==> first == second,
        !first.name_text().contains('_'),
{
    reveal_strlit("system");
    reveal_strlit("win64");
    reveal_strlit("sysv64");
    reveal_strlit("aapcs");
    reveal_strlit("c");
    reveal_strlit("cdecl");
    reveal_strlit("stdcall");
    reveal_strlit("fastcall");
    reveal_strlit("vectorcall");
    assert("system"@.len() == 6 && "sysv64"@.len() == 6);
    assert("win64"@.len() == 5 && "aapcs"@.len() == 5 && "cdecl"@.len() == 5);
    assert("c"@.len() == 1 && "stdcall"@.len() == 7 && "fastcall"@.len() == 8);
    assert("vectorcall"@.len() == 10);
    assert("system"@[3] == 't' && "sysv64"@[3] == 'v');
    assert("win64"@[0] == 'w' && "aapcs"@[0] == 'a' && "cdecl"@[0] == 'c');
}

/// Every convention, in the order in which the tests run them.
pub open spec fn all_conventions_list() -> Seq<CallingConvention> {
    seq![
        CallingConvention::C,
        CallingConvention::Cdecl,
        CallingConvention::Stdcall,
        CallingConvention::Fastcall,
        CallingConvention::Vectorcall,
        CallingConvention::System,
        CallingConvention::Win64,
        CallingConvention::Sysv64,
        CallingConvention::Aapcs,
    ]
}

/// Every convention, in the order in which the tests run them.
pub fn all_conventions() -> (all: Vec<CallingConvention>)
    ensures
        all@ == all_conventions_list(),
{
    let mut all: Vec<CallingConvention> = Vec::new();
    all.push(CallingConvention::C);
    all.push(CallingConvention::Cdecl);
    all.push(CallingConvention::Stdcall);
    all.push(CallingConvention::Fastcall);
    all.push(CallingConvention::Vectorcall);
    all.push(CallingConvention::System);
    all.push(CallingConvention::Win64);
    all.push(CallingConvention::Sysv64);
    all.push(CallingConvention::Aapcs);
    assert(all@ =~= all_conventions_list());
    all
}

/// The family of operating systems a toolchain targets.
#[derive(Debug, Clone, Copy, PartialEq, Eq, Structural, Hash)]
pub enum Platform {
    Windows,
    Linux,
    MacOS,
    Other,
}

/// The processor architecture a toolchain targets.
#[derive(Debug, Clone, Copy, PartialEq, Eq, Structural, Hash)]
pub enum Arch {
    X86_64,
    Aarch64,
    Other,
}

/// The machine the tests are built and run on.
#[derive(Debug, Clone, Copy, PartialEq, Eq, Structural, Hash)]
pub struct Host {
    pub platform: Platform,
    pub arch: Arch,
}

} // verus!
