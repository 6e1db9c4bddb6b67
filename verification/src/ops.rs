//! What the tools of the workspace run: for every tool, the command lines
//! that its flags and arguments come to, in order. Running them is left to
//! the program around this crate.

use std::path::Path;
use vstd::prelude::*;
use vstd::string::{StrSliceExecFns, StringExecFns};

verus! {

/// Where a command runs.
#[derive(Clone, Copy, Debug, PartialEq, Eq, Structural)]
pub enum Directory {
    /// Where the tool itself was started.
    Current,
    /// The root of the workspace.
    Workspace,
    /// The directory of the frontend, below the root of the workspace.
    Frontend,
}

/// A command line: a program, its arguments, the variables that are added to
/// its environment, and where it runs.
#[derive(Debug, PartialEq, Eq)]
pub struct Command {
    pub program: String,
    pub args: Vec<String>,
    pub env: Vec<(String, String)>,
    pub directory: Directory,
}

/// The mathematical content of a [`Command`].
#[verifier::ext_equal]
pub struct CommandView {
    pub program: Seq<char>,
    pub args: Seq<Seq<char>>,
    pub env: Seq<(Seq<char>, Seq<char>)>,
    pub directory: Directory,
}

impl View for Command {
    type V = CommandView;

    open spec fn view(&self) -> CommandView {
        CommandView {
            program: self.program@,
            args: self.args@.map_values(|arg: String| arg@),
            env: self.env@.map_values(|pair: (String, String)| (pair.0@, pair.1@)),
            directory: self.directory,
        }
    }
}

impl CommandView {
    /// The command line of a program without arguments.
    pub open spec fn new(program: Seq<char>, directory: Directory) -> CommandView {
        CommandView { program, args: Seq::empty(), env: Seq::empty(), directory }
    }

    /// The command line with one more argument.
    pub open spec fn arg(self, arg: Seq<char>) -> CommandView {
        CommandView { args: self.args.push(arg), ..self }
    }

    /// The command line with more arguments.
    pub open spec fn args(self, more: Seq<Seq<char>>) -> CommandView {
        CommandView { args: self.args + more, ..self }
    }

    /// The command line with one more argument if `wanted`, and as it is
    /// otherwise.
    pub open spec fn flag(self, wanted: bool, flag: Seq<char>) -> CommandView {
        if wanted {
            self.arg(flag)
        } else {
            self
        }
    }

    /// The command line with one more variable in its environment.
    pub open spec fn env(self, name: Seq<char>, value: Seq<char>) -> CommandView {
        CommandView { env: self.env.push((name, value)), ..self }
    }
}

/// The texts that a list of strings holds.
pub open spec fn texts(list: Seq<String>) -> Seq<Seq<char>> {
    list.map_values(|text: String| text@)
}

/// The command lines that a list of commands holds.
pub open spec fn lines(commands: Seq<Command>) -> Seq<CommandView> {
    commands.map_values(|command: Command| command@)
}

impl Command {
    /// The command line of a program without arguments.
    pub fn new(program: &str, directory: Directory) -> (command: Command)
        ensures
            command@ == CommandView::new(program@, directory),
    {
        let command = Command {
            program: program.to_owned(),
            args: Vec::new(),
            env: Vec::new(),
            directory,
        };
        assert(command@.args =~= Seq::empty());
        assert(command@.env =~= Seq::empty());
        command
    }

    /// The command line with one more argument.
    pub fn arg(self, arg: &str) -> (longer: Command)
        ensures
            longer@ == self@.arg(arg@),
    {
        let mut longer = self;
        longer.args.push(arg.to_owned());
        assert(longer@.args =~= self@.args.push(arg@));
        longer
    }

    /// The command line with more arguments.
    pub fn args(self, more: &Vec<String>) -> (longer: Command)
        ensures
            longer@ == self@.args(texts(more@)),
    {
        let ghost start = self@;
        let mut longer = self;
        let mut i: usize = 0;
        assert(texts(more@).take(0) =~= Seq::empty());
        assert(start.args + Seq::<Seq<char>>::empty() =~= start.args);
        while i < more.len()
            invariant
                i <= more.len(),
                longer@ == start.args(texts(more@).take(i as int)),
            decreases more.len() - i,
        {
            let ghost before = longer@;
            longer.args.push(more[i].clone());
            assert(longer@.args =~= before.args.push(more@[i as int]@));
            assert(longer@.env == before.env);
            i += 1;
            assert(start.args + texts(more@).take(i as int) =~= before.args.push(
                more@[i - 1]@,
            ));
        }
        assert(texts(more@).take(i as int) =~= texts(more@));
        longer
    }

    /// The command line with one more argument if `wanted`, and as it is
    /// otherwise.
    pub fn flag(self, wanted: bool, flag: &str) -> (longer: Command)
        ensures
            longer@ == self@.flag(wanted, flag@),
    {
        if wanted {
            self.arg(flag)
        } else {
            self
        }
    }

    /// The command line with one more variable in its environment.
    pub fn env(self, name: &str, value: &str) -> (longer: Command)
        ensures
            longer@ == self@.env(name@, value@),
    {
        let mut longer = self;
        longer.env.push((name.to_owned(), value.to_owned()));
        assert(longer@.env =~= self@.env.push((name@, value@)));
        longer
    }
}

/// A step of a check: a command, and what is made of how it ends.
#[derive(Debug, PartialEq, Eq)]
pub enum Step {
    /// The command is run. If it ends in failure, the check stops with the
    /// message `failure`.
    Check { command: Command, failure: String },
    /// The command is run, and the check goes on however it ends.
    Run { command: Command },
    /// `listing` is run and its output kept; if it ends in failure, the
    /// check stops with `unlisted`. Where the output does not name `binary`
    /// (see [`is_installed`]), `install` is run; if that ends in failure, the
    /// check stops with `failure`.
    Provide { listing: Command, unlisted: String, binary: String, install: Command, failure: String },
}

/// The mathematical content of a [`Step`].
#[verifier::ext_equal]
pub enum StepView {
    Check { command: CommandView, failure: Seq<char> },
    Run { command: CommandView },
    Provide {
        listing: CommandView,
        unlisted: Seq<char>,
        binary: Seq<char>,
        install: CommandView,
        failure: Seq<char>,
    },
}

impl View for Step {
    type V = StepView;

    open spec fn view(&self) -> StepView {
        match self {
            Step::Check { command, failure } => StepView::Check {
                command: command@,
                failure: failure@,
            },
            Step::Run { command } => StepView::Run { command: command@ },
            Step::Provide { listing, unlisted, binary, install, failure } => StepView::Provide {
                listing: listing@,
                unlisted: unlisted@,
                binary: binary@,
                install: install@,
                failure: failure@,
            },
        }
    }
}

/// The steps that a list holds.
pub open spec fn steps_of(steps: Seq<Step>) -> Seq<StepView> {
    steps.map_values(|step: Step| step@)
}

/// A step that stops the check if the command ends in failure.
fn check(command: Command, failure: &str) -> (step: Step)
    ensures
        step@ == (StepView::Check { command: command@, failure: failure@ }),
{
    Step::Check { command, failure: failure.to_owned() }
}

/// The name under which an image of this version is published.
pub open spec fn image(name: Seq<char>, version: Seq<char>) -> Seq<char> {
    "albertgarde/"@ + name + ":"@ + version
}

/// The name under which an image of this version is published.
pub fn image_name(name: &str, version: &str) -> (full: String)
    ensures
        full@ == image(name@, version@),
{
    let mut full = "albertgarde/".to_owned();
    full.append(name);
    full.append(":");
    full.append(version);
    full
}

/// What publishing a version runs: both images are tagged, then both are
/// pushed.
pub open spec fn publish_commands(version: Seq<char>) -> Seq<CommandView> {
    let docker = CommandView::new("docker"@, Directory::Current);
    seq![
        docker.arg("tag"@).arg("habi2ca-backend"@).arg(image("habi2ca-backend"@, version)),
        docker.arg("tag"@).arg("habi2ca-frontend"@).arg(image("habi2ca-frontend"@, version)),
        docker.arg("push"@).arg(image("habi2ca-backend"@, version)),
        docker.arg("push"@).arg(image("habi2ca-frontend"@, version)),
    ]
}

/// What publishing a version runs: both images are tagged, then both are
/// pushed.
pub fn publish(version: &str) -> (commands: Vec<Command>)
    ensures
        lines(commands@) == publish_commands(version@),
{
    let backend = image_name("habi2ca-backend", version);
    let frontend = image_name("habi2ca-frontend", version);
    let mut commands: Vec<Command> = Vec::new();
    commands.push(
        Command::new("docker", Directory::Current).arg("tag").arg("habi2ca-backend").arg(
            backend.as_str(),
        ),
    );
    commands.push(
        Command::new("docker", Directory::Current).arg("tag").arg("habi2ca-frontend").arg(
            frontend.as_str(),
        ),
    );
    commands.push(Command::new("docker", Directory::Current).arg("push").arg(backend.as_str()));
    commands.push(Command::new("docker", Directory::Current).arg("push").arg(frontend.as_str()));
    assert(lines(commands@) =~= publish_commands(version@));
    commands
}

/// `docker compose` on the compose file of the workspace.
pub open spec fn compose() -> CommandView {
    CommandView::new("docker"@, Directory::Workspace).arg("compose"@).arg("-f"@).arg(
        "docker/compose.yaml"@,
    )
}

/// `docker compose` on the compose file of the workspace.
pub fn base_compose_command() -> (command: Command)
    ensures
        command@ == compose(),
{
    Command::new("docker", Directory::Workspace).arg("compose").arg("-f").arg("docker/compose.yaml")
}

/// What the docker tool is asked to do.
#[derive(Debug, PartialEq, Eq)]
pub enum DockerCommand {
    /// Build the containers.
    Build,
    /// Start the containers, with the database in the directory
    /// `database_path`.
    Up { database_path: String },
    /// Publish the images as `version`.
    Publish { version: String },
}

/// The docker tool.
#[derive(Debug, PartialEq, Eq)]
pub struct Docker {
    pub command: DockerCommand,
}

impl Docker {
    /// What the tool runs. The compose file asks for the variable `DB_DIR`
    /// even where nothing is done with it.
    pub open spec fn spec_commands(self) -> Seq<CommandView> {
        match self.command {
            DockerCommand::Build => seq![compose().arg("build"@).env("DB_DIR"@, "./local/db/"@)],
            DockerCommand::Up { database_path } => seq![
                compose().arg("up"@).env("DB_DIR"@, database_path@),
            ],
            DockerCommand::Publish { version } => publish_commands(version@),
        }
    }

    /// What the tool runs.
    pub fn commands(&self) -> (commands: Vec<Command>)
        ensures
            lines(commands@) == self.spec_commands(),
    {
        match &self.command {
            DockerCommand::Build => {
                let mut commands: Vec<Command> = Vec::new();
                commands.push(base_compose_command().arg("build").env("DB_DIR", "./local/db/"));
                assert(lines(commands@) =~= self.spec_commands());
                commands
            },
            DockerCommand::Up { database_path } => {
                let mut commands: Vec<Command> = Vec::new();
                commands.push(
                    base_compose_command().arg("up").env("DB_DIR", database_path.as_str()),
                );
                assert(lines(commands@) =~= self.spec_commands());
                commands
            },
            DockerCommand::Publish { version } => publish(version.as_str()),
        }
    }
}

/// `cargo run` on the server, built for release if `release`.
pub open spec fn run_server(release: bool) -> CommandView {
    CommandView::new("cargo"@, Directory::Workspace).arg("run"@).arg("--bin"@).arg(
        "habi2ca-server"@,
    ).flag(release, "--release"@)
}

/// `cargo run` on the server, built for release if `release`.
pub fn run_server_command(release: bool) -> (command: Command)
    ensures
        command@ == run_server(release),
{
    Command::new("cargo", Directory::Workspace).arg("run").arg("--bin").arg("habi2ca-server").flag(
        release,
        "--release",
    )
}

/// `trunk build` on the frontend, for release if `release`.
pub open spec fn trunk(release: bool) -> CommandView {
    CommandView::new("trunk"@, Directory::Frontend).arg("build"@).flag(release, "--release"@)
}

/// `trunk build` on the frontend, for release if `release`.
pub fn trunk_build(release: bool) -> (command: Command)
    ensures
        command@ == trunk(release),
{
    Command::new("trunk", Directory::Frontend).arg("build").flag(release, "--release")
}

/// The command that asks cargo where the workspace is.
pub fn locate_workspace() -> (command: Command)
    ensures
        command@ == CommandView::new("cargo"@, Directory::Current).arg("locate-project"@).arg(
            "--workspace"@,
        ).arg("--message-format=plain"@),
{
    Command::new("cargo", Directory::Current).arg("locate-project").arg("--workspace").arg(
        "--message-format=plain",
    )
}

/// The digit that stands for a number below ten.
pub open spec fn digit(n: nat) -> Seq<char> {
    if n == 0 {
        "0"@
    } else if n == 1 {
        "1"@
    } else if n == 2 {
        "2"@
    } else if n == 3 {
        "3"@
    } else if n == 4 {
        "4"@
    } else if n == 5 {
        "5"@
    } else if n == 6 {
        "6"@
    } else if n == 7 {
        "7"@
    } else if n == 8 {
        "8"@
    } else {
        "9"@
    }
}

/// A number in decimal digits, without leading zeros.
pub open spec fn decimal(n: nat) -> Seq<char>
    decreases n,
{
    if n < 10 {
        digit(n)
    } else {
        decimal(n / 10) + digit(n % 10)
    }
}

/// The digit that stands for a number below ten.
fn digit_text(n: u16) -> (text: &'static str)
    requires
        n < 10,
    ensures
        text@ == digit(n as nat),
{
    match n {
        0 => "0",
        1 => "1",
        2 => "2",
        3 => "3",
        4 => "4",
        5 => "5",
        6 => "6",
        7 => "7",
        8 => "8",
        _ => "9",
    }
}

/// A number in decimal digits, without leading zeros.
pub fn decimal_text(n: u16) -> (text: String)
    ensures
        text@ == decimal(n as nat),
    decreases n,
{
    if n < 10 {
        digit_text(n).to_owned()
    } else {
        let mut text = decimal_text(n / 10);
        text.append(digit_text(n % 10));
        text
    }
}

/// The tool that starts the server.
#[derive(Debug, PartialEq, Eq)]
pub struct RunBackend {
    pub database_path: String,
    pub hostname: String,
    pub port: u16,
    pub release: bool,
    pub log_dir: String,
}

impl RunBackend {
    /// What the tool runs, with the port written as `port`: the server, with
    /// the database path, the host name, the port and the log directory as
    /// its arguments.
    pub open spec fn spec_command(self, port: Seq<char>) -> CommandView {
        run_server(self.release).arg("--"@).arg(self.database_path@).arg(self.hostname@).arg(
            port,
        ).arg("--log-dir"@).arg(self.log_dir@)
    }

    /// What the tool runs, with the port written as `port`.
    pub fn command_for(&self, port: &str) -> (command: Command)
        ensures
            command@ == self.spec_command(port@),
    {
        run_server_command(self.release).arg("--").arg(self.database_path.as_str()).arg(
            self.hostname.as_str(),
        ).arg(port).arg("--log-dir").arg(self.log_dir.as_str())
    }

    /// What the tool runs: the port stands in it in decimal digits.
    pub fn command(&self) -> (command: Command)
        ensures
            command@ == self.spec_command(decimal(self.port as nat)),
    {
        let port = decimal_text(self.port);
        self.command_for(port.as_str())
    }
}

/// The tool that starts the frontend for development.
#[derive(Debug, PartialEq, Eq)]
pub struct RunFrontend {}

impl RunFrontend {
    /// What the tool runs: the dependencies are installed, then the
    /// development server is started.
    pub fn commands(&self) -> (commands: Vec<Command>)
        ensures
            lines(commands@) == seq![
                CommandView::new("npm"@, Directory::Frontend).arg("install"@),
                CommandView::new("npm"@, Directory::Frontend).arg("run"@).arg("dev"@),
            ],
    {
        let mut commands: Vec<Command> = Vec::new();
        commands.push(Command::new("npm", Directory::Frontend).arg("install"));
        commands.push(Command::new("npm", Directory::Frontend).arg("run").arg("dev"));
        assert(lines(commands@) =~= seq![
            CommandView::new("npm"@, Directory::Frontend).arg("install"@),
            CommandView::new("npm"@, Directory::Frontend).arg("run"@).arg("dev"@),
        ]);
        commands
    }
}

/// Whether `part` stands somewhere in `text`.
pub open spec fn occurs(text: Seq<char>, part: Seq<char>) -> bool {
    exists|i: int|
        0 <= i <= text.len() - part.len() && #[trigger] text.subrange(i, i + part.len()) == part
}

/// Whether the output of a listing names a binary: whether the name stands
/// somewhere in the output.
pub fn is_installed(listing: &str, binary: &str) -> (installed: bool)
    ensures
        installed == occurs(listing@, binary@),
{
    let length = listing.unicode_len();
    let wanted = binary.unicode_len();
    if wanted > length {
        return false;
    }
    let mut start: usize = 0;
    while start <= length - wanted
        invariant
            length == listing@.len(),
            wanted == binary@.len(),
            wanted <= length,
            start <= length - wanted + 1,
            forall|i: int| 0 <= i < start ==> #[trigger] listing@.subrange(i, i + wanted) != binary@,
        decreases length - wanted + 1 - start,
    {
        let mut same: usize = 0;
        while same < wanted && listing.get_char(start + same) == binary.get_char(same)
            invariant
                length == listing@.len(),
                wanted == binary@.len(),
                start <= length - wanted,
                same <= wanted,
                forall|k: int| 0 <= k < same ==> listing@[start + k] == binary@[k],
            decreases wanted - same,
        {
            same += 1;
        }
        if same == wanted {
            assert(listing@.subrange(start as int, start + wanted) =~= binary@);
            return true;
        }
        assert(listing@.subrange(start as int, start + wanted)[same as int] != binary@[same as int]);
        start += 1;
    }
    false
}

/// `Path::extension` of the standard library: the extension of the file
/// that a path names, if it has one. Nothing is said of the result: how a
/// path falls into its parts is decided by the system that the program is
/// built for.
#[verifier::external_body]
fn extension(path: &str) -> (extension: Option<String>) {
    match Path::new(path).extension() {
        Some(extension) => Some(extension.to_string_lossy().into_owned()),
        None => None,
    }
}

/// `Path::strip_prefix` of the standard library: what is left of a path
/// below `base`, if the path begins with `base`. Nothing is said of the
/// result: how a path falls into its parts is decided by the system that
/// the program is built for.
#[verifier::external_body]
fn strip_prefix(path: &str, base: &str) -> (rest: Option<String>) {
    match Path::new(path).strip_prefix(base) {
        Ok(rest) => Some(rest.to_string_lossy().into_owned()),
        Err(_) => None,
    }
}

/// The tool that checks the workspace.
#[derive(Debug, PartialEq, Eq)]
pub struct Test {
    /// Whether to mend what can be mended.
    pub fix: bool,
    /// Whether to leave out the tests of the frontend.
    pub quick: bool,
    /// Whether the check runs on a build server.
    pub ci: bool,
    /// The paths that the check is about; all of the workspace, where none
    /// is given.
    pub paths: Vec<String>,
}

/// The steps that check the Rust code: the linter, then the formatter on the
/// Rust files that were named, if any was.
pub open spec fn rust_steps(fix: bool, rust: Seq<Seq<char>>) -> Seq<StepView> {
    let cargo = CommandView::new("cargo"@, Directory::Workspace);
    let clippy = StepView::Check {
        command: cargo.arg("clippy"@).arg("--no-deps"@).flag(fix, "--fix"@).flag(
            fix,
            "--allow-staged"@,
        ).arg("--"@).arg("-Dwarnings"@),
        failure: "Clippy found warnings."@,
    };
    let format = StepView::Check {
        command: cargo.arg("fmt"@).flag(!fix, "--check"@).arg("--"@).args(rust),
        failure: "Formatting incorrect."@,
    };
    if rust.len() == 0 {
        seq![clippy]
    } else {
        seq![clippy, format]
    }
}

/// The steps that run the tests of the workspace: the test runner is
/// installed if it is missing, then it is run.
pub open spec fn test_steps() -> Seq<StepView> {
    let cargo = CommandView::new("cargo"@, Directory::Workspace);
    seq![
        StepView::Provide {
            listing: cargo.arg("install"@).arg("--list"@),
            unlisted: "Failed to get installed binary list from cargo."@,
            binary: "cargo-nextest"@,
            install: cargo.arg("install"@).arg("cargo-nextest"@),
            failure: "Failed to install cargo-nextest."@,
        },
        StepView::Check {
            command: cargo.arg("nextest"@).arg("run"@),
            failure: "Some tests failed."@,
        },
    ]
}

/// The steps that check the frontend. The formatter looks at the files of
/// the frontend that were named, or at all of it where none was. How the
/// installation of the browsers ends is not looked at.
pub open spec fn frontend_steps(fix: bool, quick: bool, ci: bool, frontend: Seq<Seq<char>>) -> Seq<
    StepView,
> {
    let npm = CommandView::new("npm"@, Directory::Frontend);
    let npx = CommandView::new("npx"@, Directory::Frontend);
    let prettier = npx.arg("prettier"@).arg(
        if fix {
            "--write"@
        } else {
            "--check"@
        },
    );
    let steps = seq![
        StepView::Check {
            command: npm.arg("ci"@),
            failure: "Failed to install frontend dependencies."@,
        },
        StepView::Run { command: npx.arg("playwright"@).arg("install"@).flag(ci, "--with-deps"@) },
        StepView::Check { command: npm.arg("run"@).arg("check"@), failure: "Frontend check failed."@ },
        StepView::Check { command: npm.arg("run"@).arg("lint"@), failure: "Frontend lint failed."@ },
        StepView::Check {
            command: if frontend.len() == 0 {
                prettier.arg("."@)
            } else {
                prettier.args(frontend)
            },
            failure: "Frontend formatting incorrect."@,
        },
    ];
    if quick {
        steps
    } else {
        steps.push(
            StepView::Check {
                command: npm.arg("run"@).arg("test"@),
                failure: "Frontend tests failed."@,
            },
        )
    }
}

/// All the steps of a check, in order. `named` says whether any path was
/// named, `rust` has the Rust files among the paths, and `frontend` has the
/// paths below the frontend, as seen from there. The frontend is left out
/// where paths were named and none of them lies below it.
pub open spec fn check_steps(
    fix: bool,
    quick: bool,
    ci: bool,
    named: bool,
    rust: Seq<Seq<char>>,
    frontend: Seq<Seq<char>>,
) -> Seq<StepView> {
    let workspace = rust_steps(fix, rust) + test_steps();
    if named && frontend.len() == 0 {
        workspace
    } else {
        workspace + frontend_steps(fix, quick, ci, frontend)
    }
}

impl Test {
    /// All the steps of the check, in order, for the Rust files `rust` and
    /// the paths `frontend` below the frontend.
    pub fn plan(&self, rust: &Vec<String>, frontend: &Vec<String>) -> (steps: Vec<Step>)
        ensures
            steps_of(steps@) == check_steps(
                self.fix,
                self.quick,
                self.ci,
                self.paths@.len() > 0,
                texts(rust@),
                texts(frontend@),
            ),
    {
        let mut steps: Vec<Step> = Vec::new();
        steps.push(
            check(
                Command::new("cargo", Directory::Workspace).arg("clippy").arg("--no-deps").flag(
                    self.fix,
                    "--fix",
                ).flag(self.fix, "--allow-staged").arg("--").arg("-Dwarnings"),
                "Clippy found warnings.",
            ),
        );
        if rust.len() > 0 {
            steps.push(
                check(
                    Command::new("cargo", Directory::Workspace).arg("fmt").flag(
                        !self.fix,
                        "--check",
                    ).arg("--").args(rust),
                    "Formatting incorrect.",
                ),
            );
        }
        assert(steps_of(steps@) =~= rust_steps(self.fix, texts(rust@)));
        let ghost first = steps@;
        steps.push(
            Step::Provide {
                listing: Command::new("cargo", Directory::Workspace).arg("install").arg("--list"),
                unlisted: "Failed to get installed binary list from cargo.".to_owned(),
                binary: "cargo-nextest".to_owned(),
                install: Command::new("cargo", Directory::Workspace).arg("install").arg(
                    "cargo-nextest",
                ),
                failure: "Failed to install cargo-nextest.".to_owned(),
            },
        );
        steps.push(
            check(
                Command::new("cargo", Directory::Workspace).arg("nextest").arg("run"),
                "Some tests failed.",
            ),
        );
        assert(steps_of(steps@) =~= steps_of(first) + test_steps());
        if self.paths.len() > 0 && frontend.len() == 0 {
            return steps;
        }
        let ghost second = steps@;
        steps.push(
            check(
                Command::new("npm", Directory::Frontend).arg("ci"),
                "Failed to install frontend dependencies.",
            ),
        );
        steps.push(
            Step::Run {
                command: Command::new("npx", Directory::Frontend).arg("playwright").arg(
                    "install",
                ).flag(self.ci, "--with-deps"),
            },
        );
        steps.push(
            check(
                Command::new("npm", Directory::Frontend).arg("run").arg("check"),
                "Frontend check failed.",
            ),
        );
        steps.push(
            check(
                Command::new("npm", Directory::Frontend).arg("run").arg("lint"),
                "Frontend lint failed.",
            ),
        );
        let prettier = Command::new("npx", Directory::Frontend).arg("prettier").arg(
            if self.fix {
                "--write"
            } else {
                "--check"
            },
        );
        let prettier = if frontend.len() == 0 {
            prettier.arg(".")
        } else {
            prettier.args(frontend)
        };
        steps.push(check(prettier, "Frontend formatting incorrect."));
        if !self.quick {
            steps.push(
                check(
                    Command::new("npm", Directory::Frontend).arg("run").arg("test"),
                    "Frontend tests failed.",
                ),
            );
        }
        assert(steps_of(steps@) =~= steps_of(second) + frontend_steps(
            self.fix,
            self.quick,
            self.ci,
            texts(frontend@),
        ));
        steps
    }

    /// All the steps of the check, in order. The standard library says
    /// which of the paths are Rust files and which lie below the frontend;
    /// whatever it says, the steps are those that [`Test::plan`] gives for
    /// it. The Rust files are among the paths that were named, and there are
    /// no more paths below the frontend than were named.
    pub fn steps(&self) -> (steps: Vec<Step>)
        ensures
            ({
                let named = self.paths@.len() > 0;
                exists|rust: Seq<Seq<char>>, frontend: Seq<Seq<char>>|
                    {
                        &&& rust.len() <= self.paths@.len()
                        &&& frontend.len() <= self.paths@.len()
                        &&& forall|k: int|
                            0 <= k < rust.len() ==> texts(self.paths@).contains(#[trigger] rust[k])
                        &&& steps_of(steps@) == #[trigger] check_steps(
                            self.fix,
                            self.quick,
                            self.ci,
                            named,
                            rust,
                            frontend,
                        )
                    }
            }),
    {
        let mut rust: Vec<String> = Vec::new();
        let mut frontend: Vec<String> = Vec::new();
        let source = "rs".to_owned();
        let mut i: usize = 0;
        while i < self.paths.len()
            invariant
                i <= self.paths.len(),
                rust.len() <= i,
                frontend.len() <= i,
                forall|k: int|
                    0 <= k < rust.len() ==> texts(self.paths@).contains(#[trigger] texts(rust@)[k]),
            decreases self.paths.len() - i,
        {
            let path = self.paths[i].as_str();
            assert(texts(self.paths@)[i as int] == path@);
            match strip_prefix(path, "habi2ca-frontend") {
                Some(rest) => {
                    frontend.push(rest);
                },
                None => {},
            }
            match extension(path) {
                Some(found) => {
                    if found == source {
                        let ghost before = rust@;
                        rust.push(path.to_owned());
                        assert forall|k: int| 0 <= k < rust.len() implies texts(
                            self.paths@,
                        ).contains(#[trigger] texts(rust@)[k]) by {
                            if k < before.len() {
                                assert(texts(rust@)[k] == texts(before)[k]);
                            } else {
                                assert(texts(rust@)[k] == texts(self.paths@)[i as int]);
                            }
                        }
                    }
                },
                None => {},
            }
            i += 1;
        }
        let steps = self.plan(&rust, &frontend);
        assert(steps_of(steps@) == check_steps(
            self.fix,
            self.quick,
            self.ci,
            self.paths@.len() > 0,
            texts(rust@),
            texts(frontend@),
        ));
        steps
    }
}

} // verus!
