//! What is read from a compilation database: the commands recorded for a
//! source file and the arguments of each, and the outcome of loading one.

use vstd::prelude::*;

verus! {

/// Why a compilation database could not be had.
#[derive(Debug, Clone, Copy, Hash, PartialEq, Eq, PartialOrd, Ord)]
pub enum CompilationDatabaseError {
    /// The directory holds no database that can be read.
    CanNotLoadDatabase,
}

/// Reads `clang_sys::CXCompilationDatabase_NoError`, the loader's status for
/// a database that was loaded, which the crate defines as 0.
#[verifier::external_body]
fn no_error_status() -> (status: i32)
    ensures
        status == 0,
{
    clang_sys::CXCompilationDatabase_NoError
}

/// Reads `clang_sys::CXCompilationDatabase_CanNotLoadDatabase`, the loader's
/// status for a directory without a readable database, which the crate
/// defines as 1.
#[verifier::external_body]
fn can_not_load_status() -> (status: i32)
    ensures
        status == 1,
{
    clang_sys::CXCompilationDatabase_CanNotLoadDatabase
}

impl CompilationDatabaseError {
    /// Whether `status` is one of the two that the native loader documents.
    pub open spec fn documented(status: int) -> bool {
        status == 0 || status == 1
    }

    /// Whether `status` is one of the two that the native loader documents.
    pub fn is_documented(status: i32) -> (yes: bool)
        ensures
            yes == Self::documented(status as int),
    {
        status == no_error_status() || status == can_not_load_status()
    }

    /// The outcome that the native loader's `status` stands for: success for
    /// "no error", `CanNotLoadDatabase` for "cannot load database".
    pub fn from_status(status: i32) -> (outcome: Result<(), CompilationDatabaseError>)
        requires
            Self::documented(status as int),
        ensures
            outcome is Ok <==> status == 0,
            outcome is Err ==> outcome == Err::<(), _>(CompilationDatabaseError::CanNotLoadDatabase),
    {
        if status == no_error_status() {
            Ok(())
        } else {
            Err(CompilationDatabaseError::CanNotLoadDatabase)
        }
    }
}

/// One recorded compiler invocation: its arguments in order, counted from 0.
#[derive(Debug)]
pub struct CompileCommand {
    args: Vec<String>,
}

impl View for CompileCommand {
    type V = Seq<Seq<char>>;

    closed spec fn view(&self) -> Seq<Seq<char>> {
        self.args.deep_view()
    }
}

impl CompileCommand {
    #[verifier::type_invariant]
    spec fn counted(&self) -> bool {
        self.args.len() <= u32::MAX
    }

    /// The command with the arguments `args`.
    pub fn new(args: Vec<String>) -> (command: CompileCommand)
        requires
            args.len() <= u32::MAX,
        ensures
            command@ == args.deep_view(),
    {
        CompileCommand { args }
    }

    /// The number of arguments.
    pub fn get_num_args(&self) -> (n: u32)
        ensures
            n == self@.len(),
    {
        proof {
            use_type_invariant(self);
        }
        self.args.len() as u32
    }

    /// The argument at `index`.
    pub fn get_arg(&self, index: u32) -> (arg: String)
        requires
            index < self@.len(),
        ensures
            arg@ == self@[index as int],
    {
        self.args[index as usize].clone()
    }

    /// All arguments in order.
    pub fn into_args(self) -> (args: Vec<String>)
        ensures
            args.deep_view() == self@,
    {
        self.args
    }
}

/// The commands recorded for one source file, counted from 0.
#[derive(Debug)]
pub struct CompileCommands {
    commands: Vec<CompileCommand>,
}

impl View for CompileCommands {
    type V = Seq<Seq<Seq<char>>>;

    closed spec fn view(&self) -> Seq<Seq<Seq<char>>> {
        self.commands.deep_view()
    }
}

impl DeepView for CompileCommand {
    type V = Seq<Seq<char>>;

    open spec fn deep_view(&self) -> Seq<Seq<char>> {
        self@
    }
}

impl CompileCommands {
    #[verifier::type_invariant]
    spec fn counted(&self) -> bool {
        self.commands.len() <= u32::MAX
    }

    /// The commands `commands`, which may be none.
    pub fn new(commands: Vec<CompileCommand>) -> (found: CompileCommands)
        requires
            commands.len() <= u32::MAX,
        ensures
            found@ == commands.deep_view(),
    {
        CompileCommands { commands }
    }

    /// The number of commands.
    pub fn get_size(&self) -> (n: u32)
        ensures
            n == self@.len(),
    {
        proof {
            use_type_invariant(self);
        }
        self.commands.len() as u32
    }

    /// The command at `index`.
    pub fn get_command(&self, index: u32) -> (command: &CompileCommand)
        requires
            index < self@.len(),
        ensures
            command@ == self@[index as int],
    {
        &self.commands[index as usize]
    }
}

} // verus!
