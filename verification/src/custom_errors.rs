use vstd::prelude::*;

verus! {

/// A file that the run cannot do without is missing.
#[derive(Clone, Debug, PartialEq, Eq)]
pub enum FileNotFoundError {
    ConfigFileNotFound(String),
    JarFileNotFound(String),
    ZipFileNotFound(String),
    IgnoreFileNotFound(String),
}

/// A `FileNotFoundError` with the path as text.
pub enum FileNotFoundErrorView {
    ConfigFileNotFound(Seq<char>),
    JarFileNotFound(Seq<char>),
    ZipFileNotFound(Seq<char>),
    IgnoreFileNotFound(Seq<char>),
}

impl View for FileNotFoundError {
    type V = FileNotFoundErrorView;

    open spec fn view(&self) -> FileNotFoundErrorView {
        match *self {
            FileNotFoundError::ConfigFileNotFound(p) => FileNotFoundErrorView::ConfigFileNotFound(
                p@,
            ),
            FileNotFoundError::JarFileNotFound(p) => FileNotFoundErrorView::JarFileNotFound(p@),
            FileNotFoundError::ZipFileNotFound(p) => FileNotFoundErrorView::ZipFileNotFound(p@),
            FileNotFoundError::IgnoreFileNotFound(p) => FileNotFoundErrorView::IgnoreFileNotFound(
                p@,
            ),
        }
    }
}

impl FileNotFoundErrorView {
    /// What the missing file is, as the message names it.
    pub open spec fn subject(self) -> Seq<char> {
        match self {
            FileNotFoundErrorView::ConfigFileNotFound(_) => "Config file \""@,
            FileNotFoundErrorView::JarFileNotFound(_) => "Jplag jar file \""@,
            FileNotFoundErrorView::ZipFileNotFound(_) => "Submission zip file \""@,
            FileNotFoundErrorView::IgnoreFileNotFound(_) => "Ignore file \""@,
        }
    }

    /// The path of the missing file.
    pub open spec fn path(self) -> Seq<char> {
        match self {
            FileNotFoundErrorView::ConfigFileNotFound(p) => p,
            FileNotFoundErrorView::JarFileNotFound(p) => p,
            FileNotFoundErrorView::ZipFileNotFound(p) => p,
            FileNotFoundErrorView::IgnoreFileNotFound(p) => p,
        }
    }

    /// The message: the subject, the path in quotes, and `not found`.
    pub open spec fn message(self) -> Seq<char> {
        self.subject() + self.path() + "\" not found"@
    }
}

impl FileNotFoundError {
    /// The message for the operator.
    pub fn message(&self) -> (msg: String)
        ensures
            msg@ == self@.message(),
    {
        let (subject, path): (&str, &String) = match self {
            FileNotFoundError::ConfigFileNotFound(p) => ("Config file \"", p),
            FileNotFoundError::JarFileNotFound(p) => ("Jplag jar file \"", p),
            FileNotFoundError::ZipFileNotFound(p) => ("Submission zip file \"", p),
            FileNotFoundError::IgnoreFileNotFound(p) => ("Ignore file \"", p),
        };
        let mut msg: String = subject.to_owned();
        msg.append(path.as_str());
        msg.append("\" not found");
        msg
    }
}

/// The external tool ran and failed.
#[derive(Clone, Copy, Debug, PartialEq, Eq, Structural)]
pub enum SubCmdError {
    /// The tool ended with this exit code, which is not zero.
    JplagExecFailure(i32),
}

/// The decimal digit for a number below ten.
pub open spec fn digit(d: int) -> char {
    if d == 0 {
        '0'
    } else if d == 1 {
        '1'
    } else if d == 2 {
        '2'
    } else if d == 3 {
        '3'
    } else if d == 4 {
        '4'
    } else if d == 5 {
        '5'
    } else if d == 6 {
        '6'
    } else if d == 7 {
        '7'
    } else if d == 8 {
        '8'
    } else {
        '9'
    }
}

/// The decimal digits of a natural number, without leading zeros.
pub open spec fn digits(n: nat) -> Seq<char>
    decreases n,
{
    if n < 10 {
        seq![digit(n as int)]
    } else {
        digits(n / 10).push(digit((n % 10) as int))
    }
}

/// A whole number in decimal, with `-` before a negative one.
pub open spec fn decimal(n: int) -> Seq<char> {
    if n < 0 {
        seq!['-'] + digits((-n) as nat)
    } else {
        digits(n as nat)
    }
}

fn digit_of(d: u64) -> (c: char)
    requires
        d < 10,
    ensures
        c == digit(d as int),
{
    if d == 0 {
        '0'
    } else if d == 1 {
        '1'
    } else if d == 2 {
        '2'
    } else if d == 3 {
        '3'
    } else if d == 4 {
        '4'
    } else if d == 5 {
        '5'
    } else if d == 6 {
        '6'
    } else if d == 7 {
        '7'
    } else if d == 8 {
        '8'
    } else {
        '9'
    }
}

fn digits_of(n: u64) -> (out: Vec<char>)
    ensures
        out@ == digits(n as nat),
    decreases n,
{
    if n < 10 {
        let mut out: Vec<char> = Vec::new();
        out.push(digit_of(n));
        assert(out@ =~= seq![digit(n as int)]);
        out
    } else {
        let mut out = digits_of(n / 10);
        out.push(digit_of(n % 10));
        out
    }
}

/// Writes a number in decimal.
pub fn decimal_of(n: i32) -> (out: String)
    ensures
        out@ == decimal(n as int),
{
    let mut out = String::new();
    let magnitude: u64 = if n < 0 {
        out.push('-');
        (-(n as i64)) as u64
    } else {
        n as u64
    };
    let ds = digits_of(magnitude);
    let ghost head = out@;
    let mut i: usize = 0;
    while i < ds.len()
        invariant
            i <= ds.len(),
            out@ == head + ds@.subrange(0, i as int),
        decreases ds.len() - i,
    {
        out.push(ds[i]);
        i = i + 1;
        assert(out@ =~= head + ds@.subrange(0, i as int));
    }
    assert(ds@.subrange(0, i as int) =~= ds@);
    assert(n < 0 ==> head =~= seq!['-']);
    assert(n >= 0 ==> head + ds@ =~= ds@);
    out
}

impl SubCmdError {
    /// The message: `Jplag failed with exit code` and the code in decimal.
    pub open spec fn message_text(self) -> Seq<char> {
        match self {
            SubCmdError::JplagExecFailure(code) => "Jplag failed with exit code "@ + decimal(
                code as int,
            ),
        }
    }

    /// The message for the operator.
    pub fn message(&self) -> (msg: String)
        ensures
            msg@ == self.message_text(),
    {
        match self {
            SubCmdError::JplagExecFailure(code) => {
                let mut msg: String = "Jplag failed with exit code ".to_owned();
                msg.append(decimal_of(*code).as_str());
                msg
            },
        }
    }
}

/// Judges how the external tool ended: exit code zero is success, any
/// other is a failure that carries the code.
pub fn exit_verdict(code: i32) -> (r: Result<(), SubCmdError>)
    ensures
        r == (if code == 0 {
            Ok::<(), SubCmdError>(())
        } else {
            Err::<(), SubCmdError>(SubCmdError::JplagExecFailure(code))
        }),
{
    if code == 0 {
        Ok(())
    } else {
        Err(SubCmdError::JplagExecFailure(code))
    }
}

} // verus!
