//! The vocabulary of one build run: the verb passed to the external tool,
//! the configuration and platform properties, and the trait that maps each
//! of them to its fixed command-line argument.

use vstd::prelude::*;

verus! {

/// A value that contributes one fixed argument to the external tool's
/// command line.
pub trait MsBuildArg {
    /// The argument as a mathematical sequence of characters.
    spec fn arg_spec(&self) -> Seq<char>;

    /// The argument handed to the external tool.
    fn get_arg(&self) -> (r: &'static str)
        ensures
            r@ == self.arg_spec(),
    ;
}

/// The verb for one run of the external tool.
pub enum Operation {
    Build,
    Clean,
    Rebuild,
}

impl MsBuildArg for Operation {
    open spec fn arg_spec(&self) -> Seq<char> {
        match *self {
            Operation::Build => "/t:Build"@,
            Operation::Clean => "/t:Clean"@,
            Operation::Rebuild => "/t:Rebuild"@,
        }
    }

    fn get_arg(&self) -> (r: &'static str)
        ensures
            r@ == self.arg_spec(),
    {
        match *self {
            Operation::Build => "/t:Build",
            Operation::Clean => "/t:Clean",
            Operation::Rebuild => "/t:Rebuild",
        }
    }
}

/// The build configuration property of one run.
pub enum Config {
    Debug,
    Release,
}

impl MsBuildArg for Config {
    open spec fn arg_spec(&self) -> Seq<char> {
        match *self {
            Config::Debug => "/p:Configuration=Debug"@,
            Config::Release => "/p:Configuration=Release"@,
        }
    }

    fn get_arg(&self) -> (r: &'static str)
        ensures
            r@ == self.arg_spec(),
    {
        match *self {
            Config::Debug => "/p:Configuration=Debug",
            Config::Release => "/p:Configuration=Release",
        }
    }
}

/// The target platform property of one run.
#[allow(non_camel_case_types)]
pub enum Platform {
    Any,
    Win32,
    Win64,
    x86,
    x64,
}

impl MsBuildArg for Platform {
    open spec fn arg_spec(&self) -> Seq<char> {
        match *self {
            Platform::Any => "/p:Platform=Any"@,
            Platform::Win32 => "/p:Platform=Win32"@,
            Platform::Win64 => "/p:Platform=Win64"@,
            Platform::x86 => "/p:Platform=x86"@,
            Platform::x64 => "/p:Platform=x64"@,
        }
    }

    fn get_arg(&self) -> (r: &'static str)
        ensures
            r@ == self.arg_spec(),
    {
        match *self {
            Platform::Any => "/p:Platform=Any",
            Platform::Win32 => "/p:Platform=Win32",
            Platform::Win64 => "/p:Platform=Win64",
            Platform::x86 => "/p:Platform=x86",
            Platform::x64 => "/p:Platform=x64",
        }
    }
}

/// The immutable pair of configuration and platform a supervisor is created
/// with; it is fixed for every run the supervisor performs.
pub struct BuildConfig {
    pub config: Config,
    pub plat: Platform,
}

} // verus!
