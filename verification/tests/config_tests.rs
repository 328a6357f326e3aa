use jplag_rs::conf::args::{Args, Cmd, Shell};
use jplag_rs::conf::config::{
    check_inputs, config_source, confirms_override, default_config, empty_config, get_log_level,
    parse_args, startup, Config, LogLevel, ParsedArgs, Startup,
};
use jplag_rs::custom_errors::FileNotFoundError;
use jplag_rs::helper::{add_subs, AddSubError, CopyStep, SubDir};
use jplag_rs::sanitize::Entry;

fn strings(list: &[&str]) -> Vec<String> {
    list.iter().map(|s| s.to_string()).collect()
}

fn bare_args() -> Args {
    Args {
        cmd: None,
        init: false,
        log_level: "info".to_string(),
        abort_on_err: false,
        keep_non_ascii: false,
        config: None,
        source_zip: None,
        target_dir: None,
        tmp_dir: None,
        preserve_tmp_dir: false,
        ignore_file: None,
        ignore_output: false,
        jplag_jar: None,
        add_sub_dirs: Vec::new(),
        jplag_args: Vec::new(),
    }
}

#[test]
fn defaults_fill_what_nobody_set() {
    assert_eq!(
        parse_args(&bare_args(), &empty_config(), false),
        Ok(ParsedArgs {
            source_file: "submissions.zip".to_string(),
            tmp_dir: "tmp/".to_string(),
            preserve_tmp_dir: false,
            target_dir: "out/".to_string(),
            abort_on_error: false,
            keep_non_ascii: false,
            jplag_jar: "jplag.jar".to_string(),
            jplag_args: strings(&[
                "tmp/",
                "-r",
                "out//results",
                "-l",
                "java",
                "--encoding",
                "utf-8",
                "--skip-version-check",
            ]),
            additional_submission_dirs: Vec::new(),
        })
    );
}

#[test]
fn command_line_goes_before_the_config_file() {
    let mut args = bare_args();
    args.source_zip = Some("cli.zip".to_string());
    args.tmp_dir = Some("cli_tmp".to_string());
    args.abort_on_err = true;
    args.keep_non_ascii = true;
    args.preserve_tmp_dir = true;
    args.add_sub_dirs = strings(&["extra/one", "extra/two"]);
    let config = Config {
        source_zip: Some("file.zip".to_string()),
        target_dir: Some("file_out".to_string()),
        tmp_dir: Some("file_tmp".to_string()),
        ignore_file: None,
        jplag_jar: Some("file.jar".to_string()),
        jplag_args: None,
    };
    let parsed = parse_args(&args, &config, false).unwrap();
    assert_eq!(parsed.source_file, "cli.zip");
    assert_eq!(parsed.tmp_dir, "cli_tmp");
    assert_eq!(parsed.target_dir, "file_out");
    assert_eq!(parsed.jplag_jar, "file.jar");
    assert!(parsed.abort_on_error && parsed.keep_non_ascii && parsed.preserve_tmp_dir);
    assert_eq!(parsed.additional_submission_dirs, strings(&["extra/one", "extra/two"]));
    assert_eq!(parsed.jplag_args[0], "cli_tmp");
    assert_eq!(parsed.jplag_args[2], "file_out/results");
}

#[test]
fn tool_arguments_of_the_command_line_go_as_they_are() {
    let mut args = bare_args();
    args.jplag_args = strings(&["subs", "-l", "cpp"]);
    args.ignore_file = Some("missing.txt".to_string());
    let mut config = empty_config();
    config.jplag_args = Some(strings(&["from", "file"]));
    let parsed = parse_args(&args, &config, false).unwrap();
    assert_eq!(parsed.jplag_args, strings(&["subs", "-l", "cpp"]));
}

#[test]
fn tool_arguments_of_the_config_file_get_the_ignore_file() {
    let args = bare_args();
    let mut config = empty_config();
    config.jplag_args = Some(strings(&["from", "file"]));
    config.ignore_file = Some("ignore.txt".to_string());
    let parsed = parse_args(&args, &config, true).unwrap();
    assert_eq!(parsed.jplag_args, strings(&["from", "file", "-x", "ignore.txt"]));

    let mut args = bare_args();
    args.ignore_file = Some("cli_ignore.txt".to_string());
    let parsed = parse_args(&args, &config, true).unwrap();
    assert_eq!(parsed.jplag_args, strings(&["from", "file", "-x", "cli_ignore.txt"]));
}

#[test]
fn missing_ignore_file_fails() {
    let mut args = bare_args();
    args.ignore_file = Some("ignore.txt".to_string());
    assert_eq!(
        parse_args(&args, &empty_config(), false),
        Err(FileNotFoundError::IgnoreFileNotFound("ignore.txt".to_string()))
    );
    assert!(parse_args(&args, &empty_config(), true).is_ok());
    assert!(parse_args(&bare_args(), &empty_config(), false).is_ok());
}

#[test]
fn log_level_follows_the_debug_switch() {
    assert_eq!(get_log_level(true), LogLevel::Debug);
    assert_eq!(get_log_level(false), LogLevel::Info);
}

#[test]
fn startup_puts_the_subcommand_first() {
    let mut args = bare_args();
    assert_eq!(startup(&args), Startup::Run);
    args.init = true;
    assert_eq!(startup(&args), Startup::WriteDefaultConfig);
    args.cmd = Some(Cmd::Complete { shell: Shell::Fish });
    assert_eq!(startup(&args), Startup::Complete(Shell::Fish));
}

#[test]
fn config_file_is_needed_only_where_it_was_asked_for() {
    let mut args = bare_args();
    assert_eq!(config_source(&args, true), Ok(Some("config.toml".to_string())));
    assert_eq!(config_source(&args, false), Ok(None));
    args.config = Some("my.toml".to_string());
    assert_eq!(config_source(&args, true), Ok(Some("my.toml".to_string())));
    assert_eq!(
        config_source(&args, false),
        Err(FileNotFoundError::ConfigFileNotFound("my.toml".to_string()))
    );
}

#[test]
fn default_config_spells_out_the_defaults() {
    assert_eq!(
        default_config(),
        Config {
            source_zip: Some("submissions.zip".to_string()),
            target_dir: Some("out/".to_string()),
            tmp_dir: Some("tmp/".to_string()),
            ignore_file: None,
            jplag_jar: Some("jplag.jar".to_string()),
            jplag_args: Some(strings(&[
                "tmp/",
                "-r",
                "out//results",
                "-l",
                "java",
                "--encoding",
                "utf-8",
                "--skip-version-check",
            ])),
        }
    );
}

#[test]
fn only_a_plain_yes_overwrites() {
    assert!(confirms_override("y"));
    assert!(confirms_override("Y\n"));
    assert!(confirms_override("  y \r\n"));
    assert!(!confirms_override(""));
    assert!(!confirms_override("\n"));
    assert!(!confirms_override("n"));
    assert!(!confirms_override("yes"));
    assert!(!confirms_override("y y"));
    assert!(!confirms_override("yy"));
}

#[test]
fn every_kind_of_white_space_may_stand_around_the_yes() {
    assert!(confirms_override("\u{a0}y"));
    assert!(confirms_override("\t\u{b}\u{c}Y\u{85}\u{1680}"));
    assert!(confirms_override("\u{2000}\u{200a}y\u{2028}\u{2029}\u{202f}\u{205f}\u{3000}"));
    assert!(!confirms_override("\u{200b}y"));
    assert!(!confirms_override("y\u{feff}"));
    assert!(!confirms_override("\u{a0}"));
}

#[test]
fn startup_needs_the_archive_and_the_jar() {
    assert_eq!(check_inputs("s.zip", true, "j.jar", true), Ok(()));
    assert_eq!(
        check_inputs("s.zip", false, "j.jar", true),
        Err(FileNotFoundError::ZipFileNotFound("s.zip".to_string()))
    );
    assert_eq!(
        check_inputs("s.zip", false, "j.jar", false),
        Err(FileNotFoundError::ZipFileNotFound("s.zip".to_string()))
    );
    assert_eq!(
        check_inputs("s.zip", true, "j.jar", false),
        Err(FileNotFoundError::JarFileNotFound("j.jar".to_string()))
    );
}

#[test]
fn args_hand_out_what_they_hold() {
    let mut args = bare_args();
    args.config = Some("c.toml".to_string());
    args.jplag_args = strings(&["a", "b"]);
    args.cmd = Some(Cmd::Complete { shell: Shell::Zsh });
    assert_eq!(args.config(), Some(&"c.toml".to_string()));
    assert_eq!(args.source_zip(), None);
    assert_eq!(args.target_dir(), None);
    assert_eq!(args.tmp_dir(), None);
    assert_eq!(args.ignore_file(), None);
    assert_eq!(args.jplag_jar(), None);
    assert_eq!(args.log_level(), "info");
    assert_eq!(args.jplag_args(), &strings(&["a", "b"])[..]);
    assert!(args.add_sub_dirs().is_empty());
    assert_eq!(args.cmd(), Some(&Cmd::Complete { shell: Shell::Zsh }));
    assert!(!args.init() && !args.abort_on_err() && !args.keep_non_ascii());
    assert!(!args.preserve_tmp_dir() && !args.ignore_output());
}

fn step(from: &str, to: &str, is_dir: bool) -> CopyStep {
    CopyStep { from: from.to_string(), to: to.to_string(), is_dir }
}

#[test]
fn further_submissions_are_mirrored_below_the_temp_root() {
    let dirs = vec![SubDir {
        path: "extra/zoe".to_string(),
        exists: true,
        is_dir: true,
        entries: vec![
            Entry { path: "extra/zoe".to_string(), is_dir: true },
            Entry { path: "extra/zoe/work.zip".to_string(), is_dir: false },
        ],
    }];
    let plan = add_subs(&dirs, "tmp");
    assert_eq!(plan.failure, None);
    assert_eq!(
        plan.steps,
        vec![
            step("extra/zoe", "tmp/extra/zoe", true),
            step("extra/zoe", "tmp/extra/zoe", true),
            step("extra/zoe/work.zip", "tmp/extra/zoe/work.zip", false),
        ]
    );
}

#[test]
fn further_submissions_stop_at_the_first_bad_directory() {
    let good = SubDir {
        path: "one".to_string(),
        exists: true,
        is_dir: true,
        entries: vec![Entry { path: "one/a.zip".to_string(), is_dir: false }],
    };
    let missing = SubDir { path: "two".to_string(), exists: false, is_dir: false, entries: vec![] };
    let file = SubDir { path: "three".to_string(), exists: true, is_dir: false, entries: vec![] };
    let plan = add_subs(&vec![good.clone(), missing.clone(), good.clone()], "tmp/");
    assert_eq!(plan.failure, Some(AddSubError::Missing("two".to_string())));
    assert_eq!(plan.steps, vec![step("one", "tmp/one", true), step("one/a.zip", "tmp/one/a.zip", false)]);
    let plan = add_subs(&vec![file, missing], "tmp");
    assert_eq!(plan.failure, Some(AddSubError::NotADirectory("three".to_string())));
    assert!(plan.steps.is_empty());
    assert_eq!(add_subs(&Vec::new(), "tmp").steps, Vec::new());
}

#[test]
fn path_from_the_root_is_mirrored_onto_itself() {
    let dirs = vec![SubDir { path: "/abs/zoe".to_string(), exists: true, is_dir: true, entries: vec![] }];
    assert_eq!(add_subs(&dirs, "tmp").steps, vec![step("/abs/zoe", "/abs/zoe", true)]);
}
