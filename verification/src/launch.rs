//! How the instrumented target is launched: the program, its arguments and
//! the environment that tells its runtime what to do.

use vstd::prelude::*;
use crate::coverage::EDGES_MAP_ENV;
use crate::pipeline::NO_SYMBOLIC_ENV;
use crate::text::{decimal, decimal_string};

verus! {

/// The instrumented target.
pub const TARGET_PROGRAM: &'static str = "./target_symcc.out";

/// The file that a concolic run reads its input from.
pub const CONCOLIC_INPUT_PATH: &'static str = "cur_input_concolic";

/// What the input file of a coverage run is called, before the map's
/// identifier.
pub const COVERAGE_INPUT_PREFIX: &'static str = "cur_input";

/// The environment variable that names the input file to the runtime.
pub const INPUT_FILE_ENV: &'static str = "SYMCC_INPUT_FILE";

/// The environment variable that carries the size of the coverage map.
pub const EDGES_MAP_SIZE_ENV: &'static str = "EDGES_MAP_SHMEM_SIZE";

/// A command as contracts see it.
pub struct CommandModel {
    pub program: Seq<char>,
    pub input_path: Seq<char>,
    pub args: Seq<Seq<char>>,
    pub env: Seq<(Seq<char>, Seq<char>)>,
}

/// How to launch a child: the program, the file to write the input to
/// before, the arguments, and the variables to add to the environment. The
/// child's standard streams are closed.
#[derive(Debug, PartialEq, Eq)]
pub struct ChildCommand {
    pub program: String,
    pub input_path: String,
    pub args: Vec<String>,
    pub env: Vec<(String, String)>,
}

impl View for ChildCommand {
    type V = CommandModel;

    open spec fn view(&self) -> CommandModel {
        CommandModel {
            program: self.program@,
            input_path: self.input_path@,
            args: Seq::new(self.args@.len(), |i: int| self.args@[i]@),
            env: Seq::new(self.env@.len(), |i: int| (self.env@[i].0@, self.env@[i].1@)),
        }
    }
}

/// Launches the target for a concolic run: the runtime traces the input
/// file symbolically.
#[derive(Default, Debug)]
pub struct ConcolicConfigurator;

impl ConcolicConfigurator {
    /// The command of a concolic run: the target reads `cur_input_concolic`,
    /// which is also named to the runtime, and tracing is on.
    pub fn child_command(&self) -> (command: ChildCommand)
        ensures
            command@ == (CommandModel {
                program: TARGET_PROGRAM@,
                input_path: CONCOLIC_INPUT_PATH@,
                args: seq![CONCOLIC_INPUT_PATH@],
                env: seq![(INPUT_FILE_ENV@, CONCOLIC_INPUT_PATH@), (NO_SYMBOLIC_ENV@, "0"@)],
            }),
    {
        let mut args: Vec<String> = Vec::new();
        args.push(String::from_str(CONCOLIC_INPUT_PATH));
        let mut env: Vec<(String, String)> = Vec::new();
        env.push((String::from_str(INPUT_FILE_ENV), String::from_str(CONCOLIC_INPUT_PATH)));
        env.push((String::from_str(NO_SYMBOLIC_ENV), String::from_str("0")));
        let command = ChildCommand {
            program: String::from_str(TARGET_PROGRAM),
            input_path: String::from_str(CONCOLIC_INPUT_PATH),
            args,
            env,
        };
        assert(command@.args =~= seq![CONCOLIC_INPUT_PATH@]);
        assert(command@.env =~= seq![
            (INPUT_FILE_ENV@, CONCOLIC_INPUT_PATH@),
            (NO_SYMBOLIC_ENV@, "0"@),
        ]);
        command
    }
}

/// Launches the target for a coverage run: the runtime writes to the shared
/// coverage map and traces nothing.
#[derive(Debug)]
pub struct CoverageConfigurator {
    /// The identifier of the coverage map's segment.
    pub edges_shmem_id: String,
    /// The length of the coverage map.
    pub edges_shmem_size: usize,
}

impl CoverageConfigurator {
    /// The command of a coverage run. The input file carries the map's
    /// identifier in its name, which keeps the files of several clients
    /// apart; the map's identifier and size go to the runtime, and tracing is
    /// off.
    pub fn child_command(&self) -> (command: ChildCommand)
        ensures
            command@ == (CommandModel {
                program: TARGET_PROGRAM@,
                input_path: COVERAGE_INPUT_PREFIX@ + self.edges_shmem_id@,
                args: seq![COVERAGE_INPUT_PREFIX@ + self.edges_shmem_id@],
                env: seq![
                    (EDGES_MAP_ENV@, self.edges_shmem_id@),
                    (EDGES_MAP_SIZE_ENV@, decimal(self.edges_shmem_size as nat)),
                    (NO_SYMBOLIC_ENV@, "1"@),
                ],
            }),
    {
        let input_path = String::from_str(COVERAGE_INPUT_PREFIX).concat(
            self.edges_shmem_id.as_str(),
        );
        let mut args: Vec<String> = Vec::new();
        args.push(input_path.clone());
        let mut env: Vec<(String, String)> = Vec::new();
        env.push((String::from_str(EDGES_MAP_ENV), self.edges_shmem_id.clone()));
        env.push((String::from_str(EDGES_MAP_SIZE_ENV), decimal_string(self.edges_shmem_size)));
        env.push((String::from_str(NO_SYMBOLIC_ENV), String::from_str("1")));
        let command = ChildCommand { program: String::from_str(TARGET_PROGRAM), input_path, args, env };
        assert(command@.args =~= seq![COVERAGE_INPUT_PREFIX@ + self.edges_shmem_id@]);
        assert(command@.env =~= seq![
            (EDGES_MAP_ENV@, self.edges_shmem_id@),
            (EDGES_MAP_SIZE_ENV@, decimal(self.edges_shmem_size as nat)),
            (NO_SYMBOLIC_ENV@, "1"@),
        ]);
        command
    }
}

} // verus!
