use vstd::prelude::*;

verus! {

/// The shells that completions can be written for.
#[derive(Clone, Copy, Debug, PartialEq, Eq, Structural)]
pub enum Shell {
    Bash,
    Elvish,
    Fish,
    PowerShell,
    Zsh,
}

/// The subcommands.
#[derive(Clone, Copy, Debug, PartialEq, Eq, Structural)]
pub enum Cmd {
    /// Write the completions for a shell and leave.
    Complete { shell: Shell },
}

/// What the command line said, before anything is read from a config
/// file or filled in from the defaults.
#[derive(Clone, Debug, PartialEq, Eq)]
pub struct Args {
    pub cmd: Option<Cmd>,
    pub init: bool,
    pub log_level: String,
    pub abort_on_err: bool,
    pub keep_non_ascii: bool,
    pub config: Option<String>,
    pub source_zip: Option<String>,
    pub target_dir: Option<String>,
    pub tmp_dir: Option<String>,
    pub preserve_tmp_dir: bool,
    pub ignore_file: Option<String>,
    pub ignore_output: bool,
    pub jplag_jar: Option<String>,
    pub add_sub_dirs: Vec<String>,
    pub jplag_args: Vec<String>,
}

impl Args {
    /// Whether to write a config file with the defaults and leave.
    pub fn init(&self) -> (r: bool)
        ensures
            r == self.init,
    {
        self.init
    }

    /// The log level as it was given.
    pub fn log_level(&self) -> (r: &str)
        ensures
            r@ == self.log_level@,
    {
        self.log_level.as_str()
    }

    /// Whether the first error of a submission ends the run.
    pub fn abort_on_err(&self) -> (r: bool)
        ensures
            r == self.abort_on_err,
    {
        self.abort_on_err
    }

    /// Whether characters outside ASCII stay in the sources.
    pub fn keep_non_ascii(&self) -> (r: bool)
        ensures
            r == self.keep_non_ascii,
    {
        self.keep_non_ascii
    }

    /// The config file to read in place of the default one.
    pub fn config(&self) -> (r: Option<&String>)
        ensures
            match r {
                Some(v) => self.config == Some(*v),
                None => self.config is None,
            },
    {
        self.config.as_ref()
    }

    /// The archive that holds the submissions.
    pub fn source_zip(&self) -> (r: Option<&String>)
        ensures
            match r {
                Some(v) => self.source_zip == Some(*v),
                None => self.source_zip is None,
            },
    {
        self.source_zip.as_ref()
    }

    /// The directory for the results.
    pub fn target_dir(&self) -> (r: Option<&String>)
        ensures
            match r {
                Some(v) => self.target_dir == Some(*v),
                None => self.target_dir is None,
            },
    {
        self.target_dir.as_ref()
    }

    /// The directory to unpack into.
    pub fn tmp_dir(&self) -> (r: Option<&String>)
        ensures
            match r {
                Some(v) => self.tmp_dir == Some(*v),
                None => self.tmp_dir is None,
            },
    {
        self.tmp_dir.as_ref()
    }

    /// Whether the temp directory stays after the run.
    pub fn preserve_tmp_dir(&self) -> (r: bool)
        ensures
            r == self.preserve_tmp_dir,
    {
        self.preserve_tmp_dir
    }

    /// The file of names that the tool is told to ignore.
    pub fn ignore_file(&self) -> (r: Option<&String>)
        ensures
            match r {
                Some(v) => self.ignore_file == Some(*v),
                None => self.ignore_file is None,
            },
    {
        self.ignore_file.as_ref()
    }

    /// Whether the tool's output is thrown away.
    pub fn ignore_output(&self) -> (r: bool)
        ensures
            r == self.ignore_output,
    {
        self.ignore_output
    }

    /// The jar of the tool.
    pub fn jplag_jar(&self) -> (r: Option<&String>)
        ensures
            match r {
                Some(v) => self.jplag_jar == Some(*v),
                None => self.jplag_jar is None,
            },
    {
        self.jplag_jar.as_ref()
    }

    /// Directories with further submissions.
    pub fn add_sub_dirs(&self) -> (r: &[String])
        ensures
            r@ == self.add_sub_dirs@,
    {
        self.add_sub_dirs.as_slice()
    }

    /// The arguments to hand to the tool as they are.
    pub fn jplag_args(&self) -> (r: &[String])
        ensures
            r@ == self.jplag_args@,
    {
        self.jplag_args.as_slice()
    }

    /// The subcommand, if one was given.
    pub fn cmd(&self) -> (r: Option<&Cmd>)
        ensures
            match r {
                Some(v) => self.cmd == Some(*v),
                None => self.cmd is None,
            },
    {
        self.cmd.as_ref()
    }
}

} // verus!
