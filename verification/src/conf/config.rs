use crate::conf::args::{Args, Cmd, Shell};
use crate::custom_errors::{FileNotFoundError, FileNotFoundErrorView};
use crate::text::{chars_of, copy_texts, lower, text_of, texts, to_lower};
use vstd::prelude::*;

verus! {

/// What a config file may set. Every value is optional.
#[derive(Clone, Debug, PartialEq, Eq)]
pub struct Config {
    pub source_zip: Option<String>,
    pub target_dir: Option<String>,
    pub tmp_dir: Option<String>,
    pub ignore_file: Option<String>,
    pub jplag_jar: Option<String>,
    pub jplag_args: Option<Vec<String>>,
}

/// The settings of a run, with every value decided.
#[derive(Debug, PartialEq, Eq)]
pub struct ParsedArgs {
    pub source_file: String,
    pub tmp_dir: String,
    pub preserve_tmp_dir: bool,
    pub target_dir: String,
    pub abort_on_error: bool,
    pub keep_non_ascii: bool,
    pub jplag_jar: String,
    pub jplag_args: Vec<String>,
    pub additional_submission_dirs: Vec<String>,
}

/// How much is logged.
#[derive(Clone, Copy, Debug, PartialEq, Eq, Structural)]
pub enum LogLevel {
    Debug,
    Info,
}

/// The log level of a run: `Debug` where it was asked for, else `Info`.
pub fn get_log_level(debug: bool) -> (level: LogLevel)
    ensures
        level == (if debug {
            LogLevel::Debug
        } else {
            LogLevel::Info
        }),
{
    if debug {
        LogLevel::Debug
    } else {
        LogLevel::Info
    }
}

/// What the program does first.
#[derive(Clone, Copy, Debug, PartialEq, Eq, Structural)]
pub enum Startup {
    /// Write the completions for the shell and leave.
    Complete(Shell),
    /// Write the default config file and leave.
    WriteDefaultConfig,
    /// Run the pipeline.
    Run,
}

/// Decides what the program does first: a subcommand goes before the
/// request for a default config file, and that before a run.
pub fn startup(args: &Args) -> (s: Startup)
    ensures
        s == (match args.cmd {
            Some(Cmd::Complete { shell }) => Startup::Complete(shell),
            None => if args.init {
                Startup::WriteDefaultConfig
            } else {
                Startup::Run
            },
        }),
{
    match args.cmd {
        Some(Cmd::Complete { shell }) => Startup::Complete(shell),
        None => if args.init {
            Startup::WriteDefaultConfig
        } else {
            Startup::Run
        },
    }
}

/// The name of the config file that is read where none is given.
pub open spec fn default_config_file() -> Seq<char> {
    "config.toml"@
}

/// The config file to read: the given one, else the default one.
pub open spec fn config_file(given: Option<Seq<char>>) -> Seq<char> {
    match given {
        Some(path) => path,
        None => default_config_file(),
    }
}

/// Decides where the config comes from. `exists` says whether the config
/// file (the one of the command line, else `config.toml`) is there. An
/// existing file is to be read; a missing default file means an empty
/// config (`None`); a missing file that was asked for is an error.
pub fn config_source(args: &Args, exists: bool) -> (r: Result<Option<String>, FileNotFoundError>)
    ensures
        match r {
            Ok(Some(path)) => exists && path@ == config_file(text_of(args.config)),
            Ok(None) => !exists && args.config is None,
            Err(e) => !exists && args.config is Some && e@
                == FileNotFoundErrorView::ConfigFileNotFound(args.config->0@),
        },
{
    if exists {
        match &args.config {
            Some(path) => Ok(Some(path.clone())),
            None => Ok(Some("config.toml".to_owned())),
        }
    } else {
        match &args.config {
            Some(path) => Err(FileNotFoundError::ConfigFileNotFound(path.clone())),
            None => Ok(None),
        }
    }
}

/// The config without any value set.
pub fn empty_config() -> (c: Config)
    ensures
        c.source_zip is None,
        c.target_dir is None,
        c.tmp_dir is None,
        c.ignore_file is None,
        c.jplag_jar is None,
        c.jplag_args is None,
{
    Config {
        source_zip: None,
        target_dir: None,
        tmp_dir: None,
        ignore_file: None,
        jplag_jar: None,
        jplag_args: None,
    }
}

/// The arguments that the tool gets where neither the command line nor
/// the config file names any: the submissions, where to write the result,
/// the language, the encoding, and no check for a newer version.
pub open spec fn default_tool_args(tmp_dir: Seq<char>, target_dir: Seq<char>) -> Seq<Seq<char>> {
    seq![
        tmp_dir,
        "-r"@,
        target_dir + "/results"@,
        "-l"@,
        "java"@,
        "--encoding"@,
        "utf-8"@,
        "--skip-version-check"@,
    ]
}

fn default_args(tmp_dir: &str, target_dir: &str) -> (out: Vec<String>)
    ensures
        texts(out@) == default_tool_args(tmp_dir@, target_dir@),
{
    let mut result: String = target_dir.to_owned();
    result.append("/results");
    let mut out: Vec<String> = Vec::new();
    out.push(tmp_dir.to_owned());
    out.push("-r".to_owned());
    out.push(result);
    out.push("-l".to_owned());
    out.push("java".to_owned());
    out.push("--encoding".to_owned());
    out.push("utf-8".to_owned());
    out.push("--skip-version-check".to_owned());
    assert(texts(out@) =~= default_tool_args(tmp_dir@, target_dir@));
    out
}

/// The config file that `--init` writes: every default spelled out, and
/// no ignore file, so that the next run does not ask for one that is not
/// there.
pub fn default_config() -> (c: Config)
    ensures
        text_of(c.source_zip) == Some("submissions.zip"@),
        text_of(c.target_dir) == Some("out/"@),
        text_of(c.tmp_dir) == Some("tmp/"@),
        c.ignore_file is None,
        text_of(c.jplag_jar) == Some("jplag.jar"@),
        c.jplag_args is Some,
        texts(c.jplag_args->0@) == default_tool_args("tmp/"@, "out/"@),
{
    Config {
        source_zip: Some("submissions.zip".to_owned()),
        target_dir: Some("out/".to_owned()),
        tmp_dir: Some("tmp/".to_owned()),
        ignore_file: None,
        jplag_jar: Some("jplag.jar".to_owned()),
        jplag_args: Some(default_args("tmp/", "out/")),
    }
}

/// The command line goes before the config file, and that before the
/// default.
pub open spec fn chosen(cli: Option<Seq<char>>, file: Option<Seq<char>>, default: Seq<char>) -> Seq<
    char,
> {
    match cli {
        Some(v) => v,
        None => match file {
            Some(v) => v,
            None => default,
        },
    }
}

fn choose_text(cli: &Option<String>, file: &Option<String>, default: &str) -> (out: String)
    ensures
        out@ == chosen(text_of(*cli), text_of(*file), default@),
{
    match cli {
        Some(v) => v.clone(),
        None => match file {
            Some(v) => v.clone(),
            None => default.to_owned(),
        },
    }
}

/// The ignore file of a run: the one of the command line, else the one of
/// the config file. It counts only where the command line names no
/// arguments for the tool.
pub open spec fn ignore_file_in_use(args: &Args, config: &Config) -> Option<Seq<char>> {
    if args.jplag_args@.len() > 0 {
        None
    } else {
        match args.ignore_file {
            Some(f) => Some(f@),
            None => text_of(config.ignore_file),
        }
    }
}

/// The arguments for the tool. Those of the command line go as they are.
/// Without any, those of the config file are taken, else the defaults,
/// and `-x` with the ignore file is put behind them where one is in use.
pub open spec fn tool_args(args: &Args, config: &Config, tmp_dir: Seq<char>, target_dir: Seq<char>) -> Seq<
    Seq<char>,
> {
    if args.jplag_args@.len() > 0 {
        texts(args.jplag_args@)
    } else {
        let base = match config.jplag_args {
            Some(a) => texts(a@),
            None => default_tool_args(tmp_dir, target_dir),
        };
        match ignore_file_in_use(args, config) {
            Some(f) => base + seq!["-x"@, f],
            None => base,
        }
    }
}

/// Whether `parsed` holds the settings that the command line `args` and
/// the config file `config` come to.
pub open spec fn settings_of(args: &Args, config: &Config, parsed: &ParsedArgs) -> bool {
    &&& parsed.source_file@ == chosen(
        text_of(args.source_zip),
        text_of(config.source_zip),
        "submissions.zip"@,
    )
    &&& parsed.tmp_dir@ == chosen(text_of(args.tmp_dir), text_of(config.tmp_dir), "tmp/"@)
    &&& parsed.target_dir@ == chosen(text_of(args.target_dir), text_of(config.target_dir), "out/"@)
    &&& parsed.jplag_jar@ == chosen(text_of(args.jplag_jar), text_of(config.jplag_jar), "jplag.jar"@)
    &&& parsed.preserve_tmp_dir == args.preserve_tmp_dir
    &&& parsed.abort_on_error == args.abort_on_err
    &&& parsed.keep_non_ascii == args.keep_non_ascii
    &&& texts(parsed.jplag_args@) == tool_args(args, config, parsed.tmp_dir@, parsed.target_dir@)
    &&& texts(parsed.additional_submission_dirs@) == texts(args.add_sub_dirs@)
}

/// Settles every setting of a run. For each one the command line goes
/// before the config file and that before the default. `ignore_file_exists`
/// says whether the ignore file in use, if there is one, is on disk: a
/// missing one fails the call, and nothing else does.
pub fn parse_args(args: &Args, config: &Config, ignore_file_exists: bool) -> (r: Result<
    ParsedArgs,
    FileNotFoundError,
>)
    ensures
        match r {
            Ok(parsed) => settings_of(args, config, &parsed) && (ignore_file_in_use(args, config)
                is Some ==> ignore_file_exists),
            Err(e) => !ignore_file_exists && ignore_file_in_use(args, config) is Some && e@
                == FileNotFoundErrorView::IgnoreFileNotFound(ignore_file_in_use(args, config)->0),
        },
{
    let source_file = choose_text(&args.source_zip, &config.source_zip, "submissions.zip");
    let tmp_dir = choose_text(&args.tmp_dir, &config.tmp_dir, "tmp/");
    let target_dir = choose_text(&args.target_dir, &config.target_dir, "out/");
    let jplag_jar = choose_text(&args.jplag_jar, &config.jplag_jar, "jplag.jar");
    let mut jplag_args = copy_texts(&args.jplag_args);
    assert(texts(jplag_args@).len() == jplag_args@.len());
    assert(texts(args.jplag_args@).len() == args.jplag_args@.len());
    if jplag_args.len() == 0 {
        jplag_args = match &config.jplag_args {
            Some(a) => copy_texts(a),
            None => default_args(tmp_dir.as_str(), target_dir.as_str()),
        };
        let ignore_file: Option<String> = match &args.ignore_file {
            Some(f) => Some(f.clone()),
            None => match &config.ignore_file {
                Some(f) => Some(f.clone()),
                None => None,
            },
        };
        match ignore_file {
            Some(f) => {
                if !ignore_file_exists {
                    return Err(FileNotFoundError::IgnoreFileNotFound(f));
                }
                let ghost base = texts(jplag_args@);
                jplag_args.push("-x".to_owned());
                jplag_args.push(f);
                assert(texts(jplag_args@) =~= base + seq!["-x"@, f@]);
            },
            None => {},
        }
    }
    Ok(
        ParsedArgs {
            source_file,
            tmp_dir,
            preserve_tmp_dir: args.preserve_tmp_dir,
            target_dir,
            abort_on_error: args.abort_on_err,
            keep_non_ascii: args.keep_non_ascii,
            jplag_jar,
            jplag_args,
            additional_submission_dirs: copy_texts(&args.add_sub_dirs),
        },
    )
}

/// Whether `c` is white space as Unicode has it: a tab, a line feed, a
/// vertical tab, a form feed, a carriage return, a space, the next-line
/// control, a no-break space, the ogham space mark, one of the spaces
/// from en quad to hair space, a line or paragraph separator, a narrow
/// no-break space, a medium mathematical space or an ideographic space.
pub open spec fn is_blank(c: char) -> bool {
    ('\u{9}' <= c && c <= '\u{d}') || c == ' ' || c == '\u{85}' || c == '\u{a0}' || c == '\u{1680}'
        || ('\u{2000}' <= c && c <= '\u{200a}') || c == '\u{2028}' || c == '\u{2029}' || c
        == '\u{202f}' || c == '\u{205f}' || c == '\u{3000}'
}

/// Tells white space from other characters.
pub fn blank(c: char) -> (r: bool)
    ensures
        r == is_blank(c),
{
    ('\u{9}' <= c && c <= '\u{d}') || c == ' ' || c == '\u{85}' || c == '\u{a0}' || c == '\u{1680}'
        || ('\u{2000}' <= c && c <= '\u{200a}') || c == '\u{2028}' || c == '\u{2029}' || c
        == '\u{202f}' || c == '\u{205f}' || c == '\u{3000}'
}

/// Whether an answer agrees to overwrite: it is `y` or `Y` with nothing
/// but white space around it.
pub open spec fn agrees(answer: Seq<char>) -> bool {
    exists|at: int|
        0 <= at < answer.len() && lower(answer)[at] == 'y' && forall|k: int|
            0 <= k < answer.len() && k != at ==> is_blank(#[trigger] answer[k])
}

/// Reads the answer to the question whether an existing config file may
/// be overwritten.
pub fn confirms_override(answer: &str) -> (r: bool)
    ensures
        r == agrees(answer@),
{
    let low = to_lower(&chars_of(answer));
    let mut seen: Option<usize> = None;
    let mut i: usize = 0;
    while i < low.len()
        invariant
            i <= low.len(),
            low@ == lower(answer@),
            low@.len() == answer@.len(),
            match seen {
                Some(at) => at < i && low@[at as int] == 'y' && forall|k: int|
                    0 <= k < i && k != at ==> is_blank(#[trigger] answer@[k]),
                None => forall|k: int| 0 <= k < i ==> is_blank(#[trigger] answer@[k]),
            },
        decreases low.len() - i,
    {
        let c = low[i];
        let white = blank(c);
        assert(white == is_blank(answer@[i as int]));
        if !white {
            if c == 'y' && seen.is_none() {
                seen = Some(i);
            } else {
                assert(!is_blank(answer@[i as int]));
                assert(!agrees(answer@)) by {
                    if agrees(answer@) {
                        let at = choose|at: int|
                            0 <= at < answer@.len() && lower(answer@)[at] == 'y' && forall|k: int|
                                0 <= k < answer@.len() && k != at ==> is_blank(
                                    #[trigger] answer@[k],
                                );
                        if at != i {
                            assert(is_blank(answer@[i as int]));
                        } else {
                            assert(seen is Some);
                            assert(is_blank(answer@[seen->0 as int]));
                        }
                    }
                }
                return false;
            }
        }
        i = i + 1;
    }
    match seen {
        Some(at) => {
            assert(lower(answer@)[at as int] == 'y');
            true
        },
        None => {
            assert(!agrees(answer@)) by {
                if agrees(answer@) {
                    let at = choose|at: int|
                        0 <= at < answer@.len() && lower(answer@)[at] == 'y' && forall|k: int|
                            0 <= k < answer@.len() && k != at ==> is_blank(#[trigger] answer@[k]);
                    assert(is_blank(answer@[at]));
                }
            }
            false
        },
    }
}

/// Checks what a run cannot start without: the archive of submissions
/// and the jar of the tool. The archive is looked at first.
pub fn check_inputs(source_file: &str, source_exists: bool, jplag_jar: &str, jar_exists: bool) -> (r:
    Result<(), FileNotFoundError>)
    ensures
        match r {
            Ok(_) => source_exists && jar_exists,
            Err(e) => e@ == (if !source_exists {
                FileNotFoundErrorView::ZipFileNotFound(source_file@)
            } else {
                FileNotFoundErrorView::JarFileNotFound(jplag_jar@)
            }) && !(source_exists && jar_exists),
        },
{
    if !source_exists {
        Err(FileNotFoundError::ZipFileNotFound(source_file.to_owned()))
    } else if !jar_exists {
        Err(FileNotFoundError::JarFileNotFound(jplag_jar.to_owned()))
    } else {
        Ok(())
    }
}

} // verus!
