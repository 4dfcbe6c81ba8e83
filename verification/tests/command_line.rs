use debforge::args::{Architecture, Args, ArgsError, CommandLine, Invocation};

fn argv(words: &[&str]) -> Vec<String> {
    words.iter().map(|w| w.to_string()).collect()
}

fn nothing() -> CommandLine {
    CommandLine {
        binary_name: None,
        version: None,
        project_path: None,
        target: None,
        dry_run: false,
    }
}

#[test]
fn targets_by_triple_and_alias() {
    assert_eq!(Architecture::from("x86_64-unknown-linux-gnu"), Ok(Architecture::Amd64));
    assert_eq!(Architecture::from("amd64"), Ok(Architecture::Amd64));
    assert_eq!(Architecture::from("amd"), Ok(Architecture::Amd64));
    assert_eq!(Architecture::from("x86"), Ok(Architecture::Amd64));
    assert_eq!(Architecture::from("x86_64"), Ok(Architecture::Amd64));
    assert_eq!(Architecture::from("aarch64-unknown-linux-gnu"), Ok(Architecture::Arm64));
    assert_eq!(Architecture::from("arm"), Ok(Architecture::Arm64));
    assert_eq!(Architecture::from("aarch64"), Ok(Architecture::Arm64));
}

#[test]
fn targets_in_any_case() {
    assert_eq!(Architecture::from("AMD"), Ok(Architecture::Amd64));
    assert_eq!(Architecture::from("AMD64"), Ok(Architecture::Amd64));
    assert_eq!(Architecture::from("X86_64-Unknown-Linux-GNU"), Ok(Architecture::Amd64));
    assert_eq!(Architecture::from("Arm"), Ok(Architecture::Arm64));
    assert_eq!(Architecture::from("AArch64"), Ok(Architecture::Arm64));
}

#[test]
fn unknown_targets_are_reported_in_lower_case() {
    assert_eq!(
        Architecture::from("RISCV"),
        Err(ArgsError::InvalidTarget("riscv".to_string()))
    );
    assert_eq!(Architecture::from(""), Err(ArgsError::InvalidTarget(String::new())));
    assert_eq!(
        Architecture::from("arm "),
        Err(ArgsError::InvalidTarget("arm ".to_string()))
    );
    assert_eq!(
        Architecture::from("ÀRM"),
        Err(ArgsError::InvalidTarget("Àrm".to_string()))
    );
}

#[test]
fn what_a_target_stands_for() {
    assert_eq!(Architecture::Amd64.target(), "x86_64-unknown-linux-gnu");
    assert_eq!(Architecture::Arm64.target(), "aarch64-unknown-linux-gnu");
    assert_eq!(Architecture::Amd64.short(), "amd64");
    assert_eq!(Architecture::Arm64.short(), "arm64");
    assert_eq!(Architecture::Amd64.platform_bin_path(), "target/x86_64-unknown-linux-gnu/release");
    assert_eq!(Architecture::Arm64.platform_bin_path(), "target/aarch64-unknown-linux-gnu/release");
    assert_eq!(Architecture::default(), Architecture::Amd64);
}

#[test]
fn reserved_words_are_no_values() {
    for word in [
        "-h",
        "--help",
        "-b",
        "--binary-name",
        "-v",
        "--version",
        "-t",
        "--target",
        "-d",
        "--dry-run",
    ] {
        assert_eq!(
            Args::ensure_unique(word, "--binary-name"),
            Err(ArgsError::MissingInput("--binary-name".to_string()))
        );
    }
    assert_eq!(Args::ensure_unique("my_app", "--binary-name"), Ok(()));
    assert_eq!(Args::ensure_unique("-p", "--binary-name"), Ok(()));
    assert_eq!(Args::ensure_unique("--project-path", "--version"), Ok(()));
    assert_eq!(Args::ensure_unique("", "--version"), Ok(()));
    assert_eq!(Args::ensure_unique("-H", "--version"), Ok(()));
}

#[test]
fn validation_names_its_flag() {
    assert_eq!(Args::validate_name(&"app".to_string()), Ok(()));
    assert_eq!(
        Args::validate_name(&"-d".to_string()),
        Err(ArgsError::MissingInput("--binary-name".to_string()))
    );
    assert_eq!(Args::validate_version(&"not a version".to_string()), Ok(()));
    assert_eq!(
        Args::validate_version(&"--version".to_string()),
        Err(ArgsError::MissingInput("--version".to_string()))
    );
    assert_eq!(Args::validate_path(&"some/dir".to_string()), Ok(()));
    assert_eq!(
        Args::validate_path(&"-t".to_string()),
        Err(ArgsError::MissingInput("--project-path".to_string()))
    );
}

#[test]
fn exit_if_fails_on_true_only() {
    assert_eq!(Args::exit_if(false, "--target"), Ok(()));
    assert_eq!(
        Args::exit_if(true, "--target"),
        Err(ArgsError::MissingInput("--target".to_string()))
    );
}

#[test]
fn the_build_directory_by_name() {
    assert!(Args::in_build_dir("build"));
    assert!(!Args::in_build_dir("Build"));
    assert!(!Args::in_build_dir("builds"));
    assert!(!Args::in_build_dir(""));
}

#[test]
fn no_arguments() {
    assert_eq!(Args::parse(&argv(&[])), Ok(Invocation::Run(nothing())));
}

#[test]
fn every_flag_short_and_long() {
    let expected = CommandLine {
        binary_name: Some("my_app".to_string()),
        version: Some("1.2.3".to_string()),
        project_path: Some("../proj".to_string()),
        target: Some(Architecture::Arm64),
        dry_run: true,
    };
    assert_eq!(
        Args::parse(&argv(&["-b", "my_app", "-v", "1.2.3", "-p", "../proj", "-t", "ARM", "-d"])),
        Ok(Invocation::Run(expected.clone()))
    );
    assert_eq!(
        Args::parse(&argv(&[
            "--dry-run",
            "--target",
            "aarch64",
            "--project-path",
            "../proj",
            "--version",
            "1.2.3",
            "--binary-name",
            "my_app",
        ])),
        Ok(Invocation::Run(expected))
    );
}

#[test]
fn a_later_flag_overrides_an_earlier_one() {
    assert_eq!(
        Args::parse(&argv(&["-b", "one", "-b", "two", "-t", "arm", "-t", "amd"])),
        Ok(Invocation::Run(CommandLine {
            binary_name: Some("two".to_string()),
            target: Some(Architecture::Amd64),
            ..nothing()
        }))
    );
}

#[test]
fn help_ends_the_reading() {
    assert_eq!(Args::parse(&argv(&["-h"])), Ok(Invocation::Help));
    assert_eq!(Args::parse(&argv(&["--help"])), Ok(Invocation::Help));
    assert_eq!(Args::parse(&argv(&["-d", "-h", "--bogus"])), Ok(Invocation::Help));
    assert_eq!(
        Args::parse(&argv(&["--bogus", "-h"])),
        Err(ArgsError::UnknownArgument("--bogus".to_string()))
    );
}

#[test]
fn a_flag_without_a_value() {
    assert_eq!(
        Args::parse(&argv(&["-b"])),
        Err(ArgsError::MissingInput("--binary-name".to_string()))
    );
    assert_eq!(
        Args::parse(&argv(&["-d", "--version"])),
        Err(ArgsError::MissingInput("--version".to_string()))
    );
    assert_eq!(
        Args::parse(&argv(&["-p"])),
        Err(ArgsError::MissingInput("--project-path".to_string()))
    );
    assert_eq!(
        Args::parse(&argv(&["--target"])),
        Err(ArgsError::MissingInput("--target".to_string()))
    );
}

#[test]
fn a_flag_followed_by_a_flag() {
    assert_eq!(
        Args::parse(&argv(&["-b", "-d"])),
        Err(ArgsError::MissingInput("--binary-name".to_string()))
    );
    assert_eq!(
        Args::parse(&argv(&["-v", "-h"])),
        Err(ArgsError::MissingInput("--version".to_string()))
    );
    assert_eq!(
        Args::parse(&argv(&["-p", "--target", "arm"])),
        Err(ArgsError::MissingInput("--project-path".to_string()))
    );
    assert_eq!(
        Args::parse(&argv(&["-t", "-d"])),
        Err(ArgsError::InvalidTarget("-d".to_string()))
    );
    assert_eq!(
        Args::parse(&argv(&["-b", "-p"])),
        Ok(Invocation::Run(CommandLine { binary_name: Some("-p".to_string()), ..nothing() }))
    );
}

#[test]
fn an_unknown_argument() {
    assert_eq!(
        Args::parse(&argv(&["my_app"])),
        Err(ArgsError::UnknownArgument("my_app".to_string()))
    );
    assert_eq!(
        Args::parse(&argv(&["-d", "-D"])),
        Err(ArgsError::UnknownArgument("-D".to_string()))
    );
    assert_eq!(
        Args::parse(&argv(&["-t", "mips"])),
        Err(ArgsError::InvalidTarget("mips".to_string()))
    );
}

#[test]
fn the_debian_name_of_amd64_on_the_command_line() {
    assert_eq!(
        Args::parse(&argv(&["-t", "amd64"])),
        Ok(Invocation::Run(CommandLine { target: Some(Architecture::Amd64), ..nothing() }))
    );
    assert_eq!(
        Args::parse(&argv(&["-t", "amd6"])),
        Err(ArgsError::InvalidTarget("amd6".to_string()))
    );
}

#[test]
fn project_paths_met_while_reading() {
    assert_eq!(Args::project_paths(&argv(&[])), Vec::<String>::new());
    assert_eq!(Args::project_paths(&argv(&["-d", "-b", "app"])), Vec::<String>::new());
    assert_eq!(Args::project_paths(&argv(&["-p", "one"])), argv(&["one"]));
    assert_eq!(
        Args::project_paths(&argv(&["-p", "one", "-d", "--project-path", "two"])),
        argv(&["one", "two"])
    );
    assert_eq!(
        Args::parse(&argv(&["-p", "one", "-d", "--project-path", "two"])),
        Ok(Invocation::Run(CommandLine {
            project_path: Some("two".to_string()),
            dry_run: true,
            ..nothing()
        }))
    );
}

#[test]
fn project_paths_before_a_fault_or_help() {
    assert_eq!(Args::project_paths(&argv(&["-p", "one", "--bogus", "-p", "two"])), argv(&["one"]));
    assert_eq!(Args::project_paths(&argv(&["-p", "one", "-h", "-p", "two"])), argv(&["one"]));
    assert_eq!(Args::project_paths(&argv(&["--bogus", "-p", "one"])), Vec::<String>::new());
    assert_eq!(Args::project_paths(&argv(&["-p", "one", "-p"])), argv(&["one"]));
    assert_eq!(Args::project_paths(&argv(&["-p", "one", "-p", "-d"])), argv(&["one"]));
    assert_eq!(Args::project_paths(&argv(&["-t", "mips", "-p", "one"])), Vec::<String>::new());
    assert_eq!(Args::project_paths(&argv(&["-b", "-p", "one"])), Vec::<String>::new());
}

#[test]
fn messages_of_the_errors() {
    assert_eq!(
        ArgsError::MissingInput("--version".to_string()).message(),
        "--version requires an input"
    );
    assert_eq!(
        ArgsError::UnknownArgument("--bogus".to_string()).message(),
        "unknown argument: --bogus"
    );
    assert_eq!(
        ArgsError::InvalidTarget("mips".to_string()).message(),
        "invalid target/architecture: mips"
    );
}

#[test]
fn the_target_defaults_to_amd64() {
    let args = Args::new(
        CommandLine { binary_name: Some("app".to_string()), dry_run: true, ..nothing() },
        "/proj".to_string(),
    );
    assert_eq!(
        args,
        Args {
            binary_name: Some("app".to_string()),
            version: None,
            project_dir: "/proj".to_string(),
            architecture: Architecture::Amd64,
            dry_run: true,
        }
    );
    let args = Args::new(
        CommandLine { target: Some(Architecture::Arm64), ..nothing() },
        "/proj".to_string(),
    );
    assert_eq!(args.architecture, Architecture::Arm64);
    assert!(!args.dry_run);
}
