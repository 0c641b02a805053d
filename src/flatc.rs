use vstd::prelude::*;
use vstd::utf8::encode_utf8;

use crate::args::{command_line, command_line_outcome, config_error, paths_view, Args, ArgsModel};
use crate::bytes::copy_bytes;
use crate::error::{Error, RunFailure, ToolError};
use crate::version::{parse_version, reported_version, Version};

verus! {

/// The schema compiler executable: a bare name looked up through the search path,
/// or an explicit path (raw OS path bytes).
#[derive(Debug)]
pub struct Flatc {
    path: Vec<u8>,
}

impl View for Flatc {
    type V = Seq<u8>;

    closed spec fn view(&self) -> Seq<u8> {
        self.path@
    }
}

/// `flatc`, the name looked up through the search path.
pub open spec fn default_program() -> Seq<u8> {
    seq![102u8, 108u8, 97u8, 116u8, 99u8]
}

/// `--version`.
pub open spec fn version_flag() -> Seq<u8> {
    seq![45u8, 45u8, 118u8, 101u8, 114u8, 115u8, 105u8, 111u8, 110u8]
}

/// A process to launch: the program and its arguments, as raw OS string bytes.
#[derive(Debug)]
pub struct Command {
    pub program: Vec<u8>,
    pub args: Vec<Vec<u8>>,
}

/// What became of a launched process.
#[derive(Debug)]
pub enum Outcome {
    /// The process could not be started.
    NotStarted,
    /// The process ran to completion; `stdout` is what it printed, where that was
    /// captured.
    Finished { success: bool, stdout: Vec<u8> },
}

/// The version bytes that a version query with outcome `o` reports, or why the
/// compiler is unusable.
pub open spec fn probe_result(o: Outcome) -> Result<Seq<u8>, Error> {
    match o {
        Outcome::NotStarted => Err(Error::ToolUnavailable(ToolError::NotStarted)),
        Outcome::Finished { success, stdout } => if !success {
            Err(Error::ToolUnavailable(ToolError::ExitFailure))
        } else {
            match reported_version(stdout@) {
                Ok(v) => Ok(v),
                Err(e) => Err(Error::ToolUnavailable(e)),
            }
        },
    }
}

/// The result of a compile run with outcome `o`.
pub open spec fn run_result(o: Outcome) -> Result<(), Error> {
    match o {
        Outcome::NotStarted => Err(Error::Execution(RunFailure::NotStarted)),
        Outcome::Finished { success, .. } => if success {
            Ok(())
        } else {
            Err(Error::Execution(RunFailure::ExitFailure))
        },
    }
}

impl Flatc {
    /// The compiler found through the search path.
    pub fn from_env_path() -> (r: Flatc)
        ensures
            r@ == default_program(),
    {
        let name: Vec<u8> = vec![102u8, 108u8, 97u8, 116u8, 99u8];
        assert(name@ =~= default_program());
        Flatc { path: name }
    }

    /// The compiler at `path`.
    pub fn from_path(path: Vec<u8>) -> (r: Flatc)
        ensures
            r@ == path@,
    {
        Flatc { path }
    }

    /// The program this handle launches.
    pub fn program(&self) -> (r: &Vec<u8>)
        ensures
            r@ == self@,
    {
        &self.path
    }

    /// `<program> --version`, the query that [`Flatc::version`] reads.
    pub fn version_command(&self) -> (r: Command)
        ensures
            r.program@ == self@,
            paths_view(r.args@) == seq![version_flag()],
    {
        let flag: Vec<u8> = vec![45u8, 45u8, 118u8, 101u8, 114u8, 115u8, 105u8, 111u8, 110u8];
        assert(flag@ =~= version_flag());
        let mut args: Vec<Vec<u8>> = Vec::new();
        args.push(flag);
        assert(paths_view(args@) =~= seq![version_flag()]);
        Command { program: copy_bytes(&self.path), args }
    }

    /// The version reported by the version query with outcome `probe`.
    ///
    /// The compiler is unusable when the query did not start, exited with a failure
    /// status, or printed something other than `flatc version <digit>...` on its
    /// first line.
    pub fn version(&self, probe: &Outcome) -> (r: Result<Version, Error>)
        ensures
            match r {
                Ok(v) => probe_result(*probe) == Ok::<Seq<u8>, Error>(encode_utf8(v@)),
                Err(e) => probe_result(*probe) == Err::<Seq<u8>, Error>(e),
            },
    {
        match probe {
            Outcome::NotStarted => Err(Error::ToolUnavailable(ToolError::NotStarted)),
            Outcome::Finished { success, stdout } => {
                if !*success {
                    return Err(Error::ToolUnavailable(ToolError::ExitFailure));
                }
                match parse_version(stdout) {
                    Ok(v) => Ok(v),
                    Err(e) => Err(Error::ToolUnavailable(e)),
                }
            },
        }
    }

    /// Whether the version query with outcome `probe` shows a usable compiler.
    pub fn check(&self, probe: &Outcome) -> (r: Result<(), Error>)
        ensures
            r is Ok <==> probe_result(*probe) is Ok,
            r matches Err(e) ==> probe_result(*probe) == Err::<Seq<u8>, Error>(e),
    {
        match self.version(probe) {
            Ok(_) => Ok(()),
            Err(e) => Err(e),
        }
    }

    /// The command that compiles `args`, or why it cannot be built.
    pub fn command(&self, args: &Args) -> (r: Result<Command, Error>)
        ensures
            match r {
                Ok(c) => c.program@ == self@ && command_line_outcome(args@) == Ok::<
                    Seq<Seq<u8>>,
                    Error,
                >(paths_view(c.args@)),
                Err(e) => command_line_outcome(args@) == Err::<Seq<Seq<u8>>, Error>(e),
            },
    {
        match args.command_line() {
            Ok(line) => Ok(Command { program: copy_bytes(&self.path), args: line }),
            Err(e) => Err(e),
        }
    }

    /// A session that compiles `args` with this compiler, without a version check
    /// first.
    pub fn run(&self, args: Args) -> (s: Session)
        ensures
            s.wf(),
            s.program() == self@,
            s.request() == args@,
            s.spec_step() == compile_step(args@),
    {
        let flatc = Flatc { path: copy_bytes(&self.path) };
        Session::compile_or_stop(flatc, args)
    }
}

/// Where a session stands.
#[derive(Clone, Copy, Debug, PartialEq, Eq)]
pub enum Step {
    /// Launch [`Session::command`] with stdin closed and stdout captured, then
    /// hand its outcome to [`Session::resume`].
    QueryVersion,
    /// Launch [`Session::command`] with stdin closed, then hand its outcome to
    /// [`Session::resume`].
    Compile,
    /// Nothing is left to launch; this is the session's result.
    Done(Result<(), Error>),
}

/// The step after the version check passed: compile, or stop on a request that
/// cannot be built.
pub open spec fn compile_step(a: ArgsModel) -> Step {
    match command_line_outcome(a) {
        Ok(_) => Step::Compile,
        Err(e) => Step::Done(Err(e)),
    }
}

/// The step that follows `step` for request `a` once its launch ended with `o`.
pub open spec fn next_step(step: Step, a: ArgsModel, o: Outcome) -> Step {
    match step {
        Step::QueryVersion => match probe_result(o) {
            Ok(_) => compile_step(a),
            Err(e) => Step::Done(Err(e)),
        },
        Step::Compile => Step::Done(run_result(o)),
        Step::Done(r) => Step::Done(r),
    }
}

/// One invocation of the compiler, driven by its caller: the session names the
/// command to launch, the caller launches it and reports the outcome.
#[derive(Debug)]
pub struct Session {
    flatc: Flatc,
    args: Args,
    step: Step,
}

impl Session {
    /// The program the session launches.
    pub closed spec fn program(&self) -> Seq<u8> {
        self.flatc@
    }

    /// The request the session compiles.
    pub closed spec fn request(&self) -> ArgsModel {
        self.args@
    }

    /// Where the session stands.
    pub closed spec fn spec_step(&self) -> Step {
        self.step
    }

    /// A session only reaches the compile step with a request that can be built.
    pub open spec fn wf(&self) -> bool {
        self.spec_step() is Compile ==> command_line_outcome(self.request()) is Ok
    }

    fn compile_or_stop(flatc: Flatc, args: Args) -> (s: Session)
        ensures
            s.wf(),
            s.program() == flatc@,
            s.request() == args@,
            s.spec_step() == compile_step(args@),
    {
        let step = match args.command_line() {
            Ok(_) => Step::Compile,
            Err(e) => Step::Done(Err(e)),
        };
        Session { flatc, args, step }
    }

    /// Where the session stands.
    pub fn step(&self) -> (r: Step)
        ensures
            r == self.spec_step(),
    {
        self.step
    }

    /// The command to launch now: the version query, then the compile command.
    pub fn command(&self) -> (r: Command)
        requires
            self.wf(),
            !(self.spec_step() is Done),
        ensures
            r.program@ == self.program(),
            self.spec_step() is QueryVersion ==> paths_view(r.args@) == seq![version_flag()],
            self.spec_step() is Compile ==> paths_view(r.args@) == command_line(self.request()),
    {
        match self.step {
            Step::QueryVersion => self.flatc.version_command(),
            _ => match self.flatc.command(&self.args) {
                Ok(c) => c,
                Err(_) => {
                    proof {
                        assert(false);
                    }
                    self.flatc.version_command()
                },
            },
        }
    }

    /// Moves the session on by the outcome of the command it named last.
    pub fn resume(&mut self, outcome: Outcome)
        requires
            old(self).wf(),
        ensures
            final(self).wf(),
            final(self).program() == old(self).program(),
            final(self).request() == old(self).request(),
            final(self).spec_step() == next_step(
                old(self).spec_step(),
                old(self).request(),
                outcome,
            ),
    {
        match self.step {
            Step::QueryVersion => match self.flatc.check(&outcome) {
                Ok(()) => {
                    self.step =
                    match self.args.command_line() {
                        Ok(_) => Step::Compile,
                        Err(e) => Step::Done(Err(e)),
                    };
                },
                Err(e) => {
                    self.step = Step::Done(Err(e));
                },
            },
            Step::Compile => {
                self.step =
                match outcome {
                    Outcome::NotStarted => Step::Done(Err(Error::Execution(RunFailure::NotStarted))),
                    Outcome::Finished { success, .. } => if success {
                        Step::Done(Ok(()))
                    } else {
                        Step::Done(Err(Error::Execution(RunFailure::ExitFailure)))
                    },
                };
            },
            Step::Done(_) => {},
        }
    }
}

/// A session that checks the compiler found through the search path, then compiles
/// `args` with it.
pub fn run(args: Args) -> (s: Session)
    ensures
        s.wf(),
        s.program() == default_program(),
        s.request() == args@,
        s.spec_step() == Step::QueryVersion,
{
    Session { flatc: Flatc::from_env_path(), args, step: Step::QueryVersion }
}

} // verus!

verus! {

/// An incomplete request is never compiled: whatever the version query gave, the
/// session does not reach the compile step, and once the compiler is found usable
/// it ends with the request's configuration error.
pub proof fn lemma_incomplete_request_not_launched(a: ArgsModel, probe: Outcome)
    requires
        config_error(a) is Some,
    ensures
        !(next_step(Step::QueryVersion, a, probe) is Compile),
        compile_step(a) == Step::Done(Err(Error::Config(config_error(a)->0))),
        probe_result(probe) is Ok ==> next_step(Step::QueryVersion, a, probe) == Step::Done(
            Err(Error::Config(config_error(a)->0)),
        ),
{
}

/// A version query that exits with a failure status makes the compiler unusable,
/// whatever it printed.
pub proof fn lemma_failed_query_unusable(stdout: Vec<u8>)
    ensures
        probe_result(Outcome::Finished { success: false, stdout }) == Err::<Seq<u8>, Error>(
            Error::ToolUnavailable(ToolError::ExitFailure),
        ),
{
}

} // verus!
