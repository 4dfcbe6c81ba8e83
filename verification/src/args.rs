//! Command-line options and the target architecture.

use crate::text::{chars_of, lowered, spells, string_of, to_lowercase};
use vstd::prelude::*;
use vstd::string::StringExecFns;

verus! {

/// The targets a package can be staged for.
#[derive(Clone, Copy, Debug, PartialEq, Eq, Structural)]
pub enum Architecture {
    Amd64,
    Arm64,
}

/// Why a command line was rejected.
#[derive(Clone, Debug, PartialEq, Eq)]
pub enum ArgsError {
    /// The named flag takes a value and was given none, or was followed by
    /// another flag.
    MissingInput(String),
    /// The argument is no flag of this tool.
    UnknownArgument(String),
    /// The value, in lower case, names no known target.
    InvalidTarget(String),
}

/// An `ArgsError` as a value of the model.
pub enum ArgsErrorView {
    MissingInput(Seq<char>),
    UnknownArgument(Seq<char>),
    InvalidTarget(Seq<char>),
}

/// What a command line asked for, before the project directory is resolved.
#[derive(Clone, Debug, PartialEq, Eq)]
pub struct CommandLine {
    pub binary_name: Option<String>,
    pub version: Option<String>,
    pub project_path: Option<String>,
    pub target: Option<Architecture>,
    pub dry_run: bool,
}

/// A `CommandLine` as a value of the model.
pub struct CommandLineView {
    pub binary_name: Option<Seq<char>>,
    pub version: Option<Seq<char>>,
    pub project_path: Option<Seq<char>>,
    pub target: Option<Architecture>,
    pub dry_run: bool,
}

/// The result of reading a command line that holds no error.
#[derive(Clone, Debug, PartialEq, Eq)]
pub enum Invocation {
    /// The usage text was asked for; nothing else is to be done.
    Help,
    Run(CommandLine),
}

/// The build parameters of one run.
#[derive(Clone, Debug, PartialEq, Eq)]
pub struct Args {
    pub binary_name: Option<String>,
    pub version: Option<String>,
    pub project_dir: String,
    pub architecture: Architecture,
    pub dry_run: bool,
}

/// `Args` as a value of the model.
pub struct ArgsView {
    pub binary_name: Option<Seq<char>>,
    pub version: Option<Seq<char>>,
    pub project_dir: Seq<char>,
    pub architecture: Architecture,
    pub dry_run: bool,
}

/// The outcome of reading a command line, as a value of the model.
pub enum Parsed {
    Help,
    Run(CommandLineView),
    Fail(ArgsErrorView),
}

/// The characters of an optional string.
pub open spec fn opt_text(s: Option<String>) -> Option<Seq<char>> {
    match s {
        Some(t) => Some(t@),
        None => None,
    }
}

/// The characters of each string of a list.
pub open spec fn texts(v: Seq<String>) -> Seq<Seq<char>> {
    Seq::new(v.len(), |i: int| v[i]@)
}

/// The words that are flags of their own and so cannot be the value of
/// `--binary-name`, `--version` or `--project-path`.
pub open spec fn is_reserved(s: Seq<char>) -> bool {
    ||| s == "-h"@
    ||| s == "--help"@
    ||| s == "-b"@
    ||| s == "--binary-name"@
    ||| s == "-v"@
    ||| s == "--version"@
    ||| s == "-t"@
    ||| s == "--target"@
    ||| s == "-d"@
    ||| s == "--dry-run"@
}

/// The target that `value` names, compared without regard to ASCII case.
pub open spec fn resolved_target(value: Seq<char>) -> Option<Architecture> {
    let v = lowered(value);
    if v == "x86_64-unknown-linux-gnu"@ || v == "amd64"@ || v == "amd"@ || v == "x86"@ || v
        == "x86_64"@ {
        Some(Architecture::Amd64)
    } else if v == "aarch64-unknown-linux-gnu"@ || v == "arm"@ || v == "aarch64"@ {
        Some(Architecture::Arm64)
    } else {
        None
    }
}

/// The command line on which nothing was said.
pub open spec fn no_options() -> CommandLineView {
    CommandLineView {
        binary_name: None,
        version: None,
        project_path: None,
        target: None,
        dry_run: false,
    }
}

/// The value of the flag at `i`, written `flag` in messages: the argument
/// behind it, unless there is none or, where `guarded`, it is a reserved word.
pub open spec fn flag_value(argv: Seq<Seq<char>>, i: int, flag: Seq<char>, guarded: bool) -> Result<
    Seq<char>,
    ArgsErrorView,
> {
    if i + 1 >= argv.len() || (guarded && is_reserved(argv[i + 1])) {
        Err(ArgsErrorView::MissingInput(flag))
    } else {
        Ok(argv[i + 1])
    }
}

/// What reading a command line gives: the project paths met on the way, in
/// their order, and how the reading ended.
pub struct ReadingView {
    pub project_paths: Seq<Seq<char>>,
    pub end: Parsed,
}

/// Reads `argv` from index `i` on, with `acc` holding what the arguments
/// before `i` said and `paths` the project paths among them. A later flag
/// overrides an earlier one of its kind; the first error or request for help
/// ends the reading.
pub open spec fn read_from(
    argv: Seq<Seq<char>>,
    i: int,
    acc: CommandLineView,
    paths: Seq<Seq<char>>,
) -> ReadingView
    decreases argv.len() - i,
{
    if i < 0 || i >= argv.len() {
        ReadingView { project_paths: paths, end: Parsed::Run(acc) }
    } else {
        let arg = argv[i];
        if arg == "-h"@ || arg == "--help"@ {
            ReadingView { project_paths: paths, end: Parsed::Help }
        } else if arg == "-b"@ || arg == "--binary-name"@ {
            match flag_value(argv, i, "--binary-name"@, true) {
                Ok(v) => read_from(
                    argv,
                    i + 2,
                    CommandLineView { binary_name: Some(v), ..acc },
                    paths,
                ),
                Err(e) => ReadingView { project_paths: paths, end: Parsed::Fail(e) },
            }
        } else if arg == "-v"@ || arg == "--version"@ {
            match flag_value(argv, i, "--version"@, true) {
                Ok(v) => read_from(
                    argv,
                    i + 2,
                    CommandLineView { version: Some(v), ..acc },
                    paths,
                ),
                Err(e) => ReadingView { project_paths: paths, end: Parsed::Fail(e) },
            }
        } else if arg == "-p"@ || arg == "--project-path"@ {
            match flag_value(argv, i, "--project-path"@, true) {
                Ok(v) => read_from(
                    argv,
                    i + 2,
                    CommandLineView { project_path: Some(v), ..acc },
                    paths.push(v),
                ),
                Err(e) => ReadingView { project_paths: paths, end: Parsed::Fail(e) },
            }
        } else if arg == "-t"@ || arg == "--target"@ {
            match flag_value(argv, i, "--target"@, false) {
                Ok(v) => match resolved_target(v) {
                    Some(a) => read_from(
                        argv,
                        i + 2,
                        CommandLineView { target: Some(a), ..acc },
                        paths,
                    ),
                    None => ReadingView {
                        project_paths: paths,
                        end: Parsed::Fail(ArgsErrorView::InvalidTarget(lowered(v))),
                    },
                },
                Err(e) => ReadingView { project_paths: paths, end: Parsed::Fail(e) },
            }
        } else if arg == "-d"@ || arg == "--dry-run"@ {
            read_from(argv, i + 1, CommandLineView { dry_run: true, ..acc }, paths)
        } else {
            ReadingView {
                project_paths: paths,
                end: Parsed::Fail(ArgsErrorView::UnknownArgument(arg)),
            }
        }
    }
}

/// What the whole command line `argv` says.
pub open spec fn parsed(argv: Seq<Seq<char>>) -> Parsed {
    read_from(argv, 0, no_options(), Seq::empty()).end
}

/// The project paths that the reading of `argv` meets before it ends, in
/// their order. Each is to exist, and the last one counts.
pub open spec fn project_paths_read(argv: Seq<Seq<char>>) -> Seq<Seq<char>> {
    read_from(argv, 0, no_options(), Seq::empty()).project_paths
}

/// The last of `paths`, if there is one.
pub open spec fn last_path(paths: Seq<Seq<char>>) -> Option<Seq<char>> {
    if paths.len() > 0 {
        Some(paths.last())
    } else {
        None
    }
}

/// The project path of a command line that was read to its end is the last
/// of the project paths met, and there is none where none was met.
pub proof fn lemma_last_project_path_counts(
    argv: Seq<Seq<char>>,
    i: int,
    acc: CommandLineView,
    paths: Seq<Seq<char>>,
)
    requires
        acc.project_path == last_path(paths),
    ensures
        read_from(argv, i, acc, paths).end matches Parsed::Run(line) ==> line.project_path
            == last_path(read_from(argv, i, acc, paths).project_paths),
    decreases argv.len() - i,
{
    if 0 <= i < argv.len() {
        let arg = argv[i];
        if arg == "-h"@ || arg == "--help"@ {
        } else if arg == "-b"@ || arg == "--binary-name"@ {
            if let Ok(v) = flag_value(argv, i, "--binary-name"@, true) {
                lemma_last_project_path_counts(
                    argv,
                    i + 2,
                    CommandLineView { binary_name: Some(v), ..acc },
                    paths,
                );
            }
        } else if arg == "-v"@ || arg == "--version"@ {
            if let Ok(v) = flag_value(argv, i, "--version"@, true) {
                lemma_last_project_path_counts(
                    argv,
                    i + 2,
                    CommandLineView { version: Some(v), ..acc },
                    paths,
                );
            }
        } else if arg == "-p"@ || arg == "--project-path"@ {
            if let Ok(v) = flag_value(argv, i, "--project-path"@, true) {
                lemma_last_project_path_counts(
                    argv,
                    i + 2,
                    CommandLineView { project_path: Some(v), ..acc },
                    paths.push(v),
                );
            }
        } else if arg == "-t"@ || arg == "--target"@ {
            if let Ok(v) = flag_value(argv, i, "--target"@, false) {
                if let Some(a) = resolved_target(v) {
                    lemma_last_project_path_counts(
                        argv,
                        i + 2,
                        CommandLineView { target: Some(a), ..acc },
                        paths,
                    );
                }
            }
        } else if arg == "-d"@ || arg == "--dry-run"@ {
            lemma_last_project_path_counts(
                argv,
                i + 1,
                CommandLineView { dry_run: true, ..acc },
                paths,
            );
        }
    }
}

impl View for ArgsError {
    type V = ArgsErrorView;

    open spec fn view(&self) -> ArgsErrorView {
        match self {
            ArgsError::MissingInput(s) => ArgsErrorView::MissingInput(s@),
            ArgsError::UnknownArgument(s) => ArgsErrorView::UnknownArgument(s@),
            ArgsError::InvalidTarget(s) => ArgsErrorView::InvalidTarget(s@),
        }
    }
}

impl ArgsErrorView {
    /// The text that reports the error.
    pub open spec fn message(self) -> Seq<char> {
        match self {
            ArgsErrorView::MissingInput(flag) => flag + " requires an input"@,
            ArgsErrorView::UnknownArgument(arg) => "unknown argument: "@ + arg,
            ArgsErrorView::InvalidTarget(value) => "invalid target/architecture: "@ + value,
        }
    }
}

impl ArgsError {
    /// The text that reports the error.
    pub fn message(&self) -> (r: String)
        ensures
            r@ == self@.message(),
    {
        match self {
            ArgsError::MissingInput(flag) => flag.clone().concat(" requires an input"),
            ArgsError::UnknownArgument(arg) => String::from_str("unknown argument: ").concat(
                arg.as_str(),
            ),
            ArgsError::InvalidTarget(value) => String::from_str(
                "invalid target/architecture: ",
            ).concat(value.as_str()),
        }
    }
}

impl View for CommandLine {
    type V = CommandLineView;

    open spec fn view(&self) -> CommandLineView {
        CommandLineView {
            binary_name: opt_text(self.binary_name),
            version: opt_text(self.version),
            project_path: opt_text(self.project_path),
            target: self.target,
            dry_run: self.dry_run,
        }
    }
}

impl View for Args {
    type V = ArgsView;

    open spec fn view(&self) -> ArgsView {
        ArgsView {
            binary_name: opt_text(self.binary_name),
            version: opt_text(self.version),
            project_dir: self.project_dir@,
            architecture: self.architecture,
            dry_run: self.dry_run,
        }
    }
}

impl Default for Architecture {
    fn default() -> (r: Architecture)
        ensures
            r == Architecture::Amd64,
    {
        Architecture::Amd64
    }
}

impl Architecture {
    /// The compiler's name for the target.
    pub open spec fn target_text(self) -> Seq<char> {
        match self {
            Architecture::Amd64 => "x86_64-unknown-linux-gnu"@,
            Architecture::Arm64 => "aarch64-unknown-linux-gnu"@,
        }
    }

    /// Debian's name for the architecture.
    pub open spec fn short_text(self) -> Seq<char> {
        match self {
            Architecture::Amd64 => "amd64"@,
            Architecture::Arm64 => "arm64"@,
        }
    }

    /// The directory, below the project, in which the built binary is
    /// looked for.
    pub open spec fn platform_bin_text(self) -> Seq<char> {
        match self {
            Architecture::Amd64 => "target/x86_64-unknown-linux-gnu/release"@,
            Architecture::Arm64 => "target/aarch64-unknown-linux-gnu/release"@,
        }
    }

    /// Resolves a target given as text, in any ASCII case: a full target
    /// triple, Debian's `amd64`, or one of the short aliases.
    pub fn from(value: &str) -> (r: Result<Architecture, ArgsError>)
        ensures
            match r {
                Ok(a) => resolved_target(value@) == Some(a),
                Err(e) => resolved_target(value@).is_none() && e@ == ArgsErrorView::InvalidTarget(
                    lowered(value@),
                ),
            },
    {
        let given = chars_of(value);
        let lower = to_lowercase(given.as_slice());
        let v = lower.as_slice();
        if spells(v, "x86_64-unknown-linux-gnu") || spells(v, "amd64") || spells(v, "amd")
            || spells(v, "x86") || spells(v, "x86_64") {
            Ok(Architecture::Amd64)
        } else if spells(v, "aarch64-unknown-linux-gnu") || spells(v, "arm") || spells(
            v,
            "aarch64",
        ) {
            Ok(Architecture::Arm64)
        } else {
            Err(ArgsError::InvalidTarget(string_of(v)))
        }
    }

    /// The compiler's name for the target.
    pub fn target(self) -> (r: &'static str)
        ensures
            r@ == self.target_text(),
    {
        match self {
            Architecture::Amd64 => "x86_64-unknown-linux-gnu",
            Architecture::Arm64 => "aarch64-unknown-linux-gnu",
        }
    }

    /// Debian's name for the architecture.
    pub fn short(self) -> (r: &'static str)
        ensures
            r@ == self.short_text(),
    {
        match self {
            Architecture::Amd64 => "amd64",
            Architecture::Arm64 => "arm64",
        }
    }

    /// The directory, below the project, in which the built binary is
    /// looked for.
    pub fn platform_bin_path(self) -> (r: &'static str)
        ensures
            r@ == self.platform_bin_text(),
    {
        match self {
            Architecture::Amd64 => "target/x86_64-unknown-linux-gnu/release",
            Architecture::Arm64 => "target/aarch64-unknown-linux-gnu/release",
        }
    }
}

/// Whether `arg` is one of the reserved words.
pub fn reserved(arg: &str) -> (r: bool)
    ensures
        r == is_reserved(arg@),
{
    let chars = chars_of(arg);
    let a = chars.as_slice();
    spells(a, "-h") || spells(a, "--help") || spells(a, "-b") || spells(a, "--binary-name")
        || spells(a, "-v") || spells(a, "--version") || spells(a, "-t") || spells(a, "--target")
        || spells(a, "-d") || spells(a, "--dry-run")
}

impl Args {
    /// Rejects a flag's value that is itself a reserved word; `from` names
    /// the flag.
    pub fn ensure_unique(value: &str, from: &'static str) -> (r: Result<(), ArgsError>)
        ensures
            r.is_err() == is_reserved(value@),
            r matches Err(e) ==> e@ == ArgsErrorView::MissingInput(from@),
    {
        if reserved(value) {
            Err(ArgsError::MissingInput(String::from_str(from)))
        } else {
            Ok(())
        }
    }

    /// Accepts as a binary name whatever is no reserved word.
    pub fn validate_name(name: &String) -> (r: Result<(), ArgsError>)
        ensures
            r.is_err() == is_reserved(name@),
            r matches Err(e) ==> e@ == ArgsErrorView::MissingInput("--binary-name"@),
    {
        Args::ensure_unique(name.as_str(), "--binary-name")
    }

    /// Accepts as a version whatever is no reserved word; its format is
    /// left to the packaging tools.
    pub fn validate_version(version: &String) -> (r: Result<(), ArgsError>)
        ensures
            r.is_err() == is_reserved(version@),
            r matches Err(e) ==> e@ == ArgsErrorView::MissingInput("--version"@),
    {
        Args::ensure_unique(version.as_str(), "--version")
    }

    /// Accepts as a project path whatever is no reserved word. Whether the
    /// path exists is for the caller to find out.
    pub fn validate_path(name: &String) -> (r: Result<(), ArgsError>)
        ensures
            r.is_err() == is_reserved(name@),
            r matches Err(e) ==> e@ == ArgsErrorView::MissingInput("--project-path"@),
    {
        Args::ensure_unique(name.as_str(), "--project-path")
    }

    /// Fails, naming `flag`, where the flag's value was found missing.
    pub fn exit_if(is_none: bool, flag: &str) -> (r: Result<(), ArgsError>)
        ensures
            r.is_err() == is_none,
            r matches Err(e) ==> e@ == ArgsErrorView::MissingInput(flag@),
    {
        if is_none {
            Err(ArgsError::MissingInput(String::from_str(flag)))
        } else {
            Ok(())
        }
    }

    /// Whether `dir_name`, the last component of the working directory,
    /// names the build directory, whose parent is then the project.
    pub fn in_build_dir(dir_name: &str) -> (r: bool)
        ensures
            r == (dir_name@ == "build"@),
    {
        let d = chars_of(dir_name);
        spells(d.as_slice(), "build")
    }

    /// Reads the arguments that follow the program's name.
    pub fn parse(argv: &Vec<String>) -> (r: Result<Invocation, ArgsError>)
        ensures
            match r {
                Ok(Invocation::Help) => parsed(texts(argv@)) == Parsed::Help,
                Ok(Invocation::Run(line)) => parsed(texts(argv@)) == Parsed::Run(line@),
                Err(e) => parsed(texts(argv@)) == Parsed::Fail(e@),
            },
    {
        Args::read(argv).1
    }

    /// The project paths that the reading of the arguments meets before it
    /// ends, in their order. The caller is to see that each exists before it
    /// goes by what `parse` says: a path that does not exist is the earlier
    /// fault.
    pub fn project_paths(argv: &Vec<String>) -> (r: Vec<String>)
        ensures
            texts(r@) == project_paths_read(texts(argv@)),
    {
        Args::read(argv).0
    }

    fn read(argv: &Vec<String>) -> (r: (Vec<String>, Result<Invocation, ArgsError>))
        ensures
            texts(r.0@) == project_paths_read(texts(argv@)),
            match r.1 {
                Ok(Invocation::Help) => parsed(texts(argv@)) == Parsed::Help,
                Ok(Invocation::Run(line)) => parsed(texts(argv@)) == Parsed::Run(line@),
                Err(e) => parsed(texts(argv@)) == Parsed::Fail(e@),
            },
    {
        let mut line = CommandLine {
            binary_name: None,
            version: None,
            project_path: None,
            target: None,
            dry_run: false,
        };
        let mut paths: Vec<String> = Vec::new();
        let mut i: usize = 0;
        assert(texts(paths@) == Seq::<Seq<char>>::empty());
        while i < argv.len()
            invariant
                i <= argv.len(),
                read_from(texts(argv@), i as int, line@, texts(paths@)) == read_from(
                    texts(argv@),
                    0,
                    no_options(),
                    Seq::empty(),
                ),
            decreases argv.len() - i,
        {
            let word = chars_of(argv[i].as_str());
            let arg = word.as_slice();
            assert(texts(argv@)[i as int] == arg@);
            let value: Option<&String> = if i + 1 < argv.len() {
                assert(texts(argv@)[i + 1] == argv@[i + 1]@);
                Some(&argv[i + 1])
            } else {
                None
            };
            let step: Result<usize, ArgsError> = if spells(arg, "-h") || spells(arg, "--help") {
                return (paths, Ok(Invocation::Help));
            } else if spells(arg, "-b") || spells(arg, "--binary-name") {
                Args::read_name(&mut line, value)
            } else if spells(arg, "-v") || spells(arg, "--version") {
                Args::read_version(&mut line, value)
            } else if spells(arg, "-p") || spells(arg, "--project-path") {
                let ghost before = texts(paths@);
                let step = Args::read_path(&mut line, value);
                if let (Ok(_), Some(path)) = (&step, value) {
                    paths.push(path.clone());
                    assert(texts(paths@) == before.push(path@));
                }
                step
            } else if spells(arg, "-t") || spells(arg, "--target") {
                Args::read_target(&mut line, value)
            } else if spells(arg, "-d") || spells(arg, "--dry-run") {
                line.dry_run = true;
                Ok(1)
            } else {
                Err(ArgsError::UnknownArgument(string_of(arg)))
            };
            match step {
                Ok(taken) => {
                    i += taken;
                },
                Err(e) => {
                    return (paths, Err(e));
                },
            }
        }
        (paths, Ok(Invocation::Run(line)))
    }

    /// Takes the binary's name from the value of its flag.
    fn read_name(line: &mut CommandLine, value: Option<&String>) -> (r: Result<usize, ArgsError>)
        ensures
            match r {
                Ok(taken) => taken == 2 && value.is_some() && !is_reserved(value.unwrap()@)
                    && final(line)@ == (CommandLineView {
                    binary_name: Some(value.unwrap()@),
                    ..old(line)@
                }),
                Err(e) => (value.is_none() || is_reserved(value.unwrap()@)) && e@
                    == ArgsErrorView::MissingInput("--binary-name"@),
            },
    {
        if let Some(name) = value {
            Args::validate_name(name)?;
            line.binary_name = Some(name.clone());
        }
        Args::exit_if(value.is_none(), "--binary-name")?;
        Ok(2)
    }

    /// Takes the version from the value of its flag.
    fn read_version(line: &mut CommandLine, value: Option<&String>) -> (r: Result<
        usize,
        ArgsError,
    >)
        ensures
            match r {
                Ok(taken) => taken == 2 && value.is_some() && !is_reserved(value.unwrap()@)
                    && final(line)@ == (CommandLineView {
                    version: Some(value.unwrap()@),
                    ..old(line)@
                }),
                Err(e) => (value.is_none() || is_reserved(value.unwrap()@)) && e@
                    == ArgsErrorView::MissingInput("--version"@),
            },
    {
        if let Some(version) = value {
            Args::validate_version(version)?;
            line.version = Some(version.clone());
        }
        Args::exit_if(value.is_none(), "--version")?;
        Ok(2)
    }

    /// Takes the project path from the value of its flag.
    fn read_path(line: &mut CommandLine, value: Option<&String>) -> (r: Result<usize, ArgsError>)
        ensures
            match r {
                Ok(taken) => taken == 2 && value.is_some() && !is_reserved(value.unwrap()@)
                    && final(line)@ == (CommandLineView {
                    project_path: Some(value.unwrap()@),
                    ..old(line)@
                }),
                Err(e) => (value.is_none() || is_reserved(value.unwrap()@)) && e@
                    == ArgsErrorView::MissingInput("--project-path"@),
            },
    {
        if let Some(path) = value {
            Args::validate_path(path)?;
            line.project_path = Some(path.clone());
        }
        Args::exit_if(value.is_none(), "--project-path")?;
        Ok(2)
    }

    /// Takes the target from the value of its flag.
    fn read_target(line: &mut CommandLine, value: Option<&String>) -> (r: Result<
        usize,
        ArgsError,
    >)
        ensures
            match r {
                Ok(taken) => taken == 2 && value.is_some() && resolved_target(
                    value.unwrap()@,
                ).is_some() && final(line)@ == (CommandLineView {
                    target: resolved_target(value.unwrap()@),
                    ..old(line)@
                }),
                Err(e) => if value.is_none() {
                    e@ == ArgsErrorView::MissingInput("--target"@)
                } else {
                    resolved_target(value.unwrap()@).is_none() && e@
                        == ArgsErrorView::InvalidTarget(lowered(value.unwrap()@))
                },
            },
    {
        if let Some(target) = value {
            line.target = Some(Architecture::from(target.as_str())?);
        }
        Args::exit_if(value.is_none(), "--target")?;
        Ok(2)
    }

    /// The build parameters that a command line and the resolved project
    /// directory give; the target defaults to `Architecture::default()`.
    pub fn new(line: CommandLine, project_dir: String) -> (r: Args)
        ensures
            r@ == (ArgsView {
                binary_name: line@.binary_name,
                version: line@.version,
                project_dir: project_dir@,
                architecture: match line@.target {
                    Some(a) => a,
                    None => Architecture::Amd64,
                },
                dry_run: line@.dry_run,
            }),
    {
        let architecture = match line.target {
            Some(a) => a,
            None => Architecture::default(),
        };
        Args {
            binary_name: line.binary_name,
            version: line.version,
            project_dir,
            architecture,
            dry_run: line.dry_run,
        }
    }
}

} // verus!
