use crate::text::{chars_of, contains, has_infix, lower, texts, to_lower};
use vstd::prelude::*;

verus! {

/// How loud a line of the tool's output is reported.
#[derive(Clone, Copy, Debug, PartialEq, Eq, Structural)]
pub enum Severity {
    Trace,
    Debug,
    Info,
    Warn,
}

/// One line of output with its severity. `continuation` marks a line that
/// is loud only because it belongs to a diagnostic that began earlier.
#[derive(Clone, Copy, Debug, PartialEq, Eq, Structural)]
pub struct ClassifiedLine {
    pub severity: Severity,
    pub continuation: bool,
}

/// Whether a line, taken without regard to case, speaks of trouble.
pub open spec fn has_keyword(line: Seq<char>) -> bool {
    let low = lower(line);
    contains(low, "error"@) || contains(low, "warn"@) || contains(low, "fail"@)
}

/// The severity of a line, given whether it stands inside a diagnostic.
pub open spec fn severity_of(in_block: bool, line: Seq<char>) -> Severity {
    if in_block || has_keyword(line) {
        Severity::Warn
    } else if contains(lower(line), "submissions"@) {
        Severity::Info
    } else {
        Severity::Debug
    }
}

/// Whether the line after `line` stands inside a diagnostic: a diagnostic
/// runs until a line with a caret, and begins with a line that has a
/// keyword and the marker `error:` as written.
pub open spec fn block_after(in_block: bool, line: Seq<char>) -> bool {
    if in_block {
        !contains(line, "^"@)
    } else {
        has_keyword(line) && contains(line, "error:"@)
    }
}

/// Classifies one line of the tool's output. `in_diagnostic_block` is the
/// state of the stream: `false` before the first line, and afterwards what
/// the call on the line before left in it.
pub fn classify(line: &str, in_diagnostic_block: &mut bool) -> (severity: Severity)
    ensures
        severity == severity_of(*old(in_diagnostic_block), line@),
        *final(in_diagnostic_block) == block_after(*old(in_diagnostic_block), line@),
{
    let raw = chars_of(line);
    if *in_diagnostic_block {
        if has_infix(&raw, &chars_of("^")) {
            *in_diagnostic_block = false;
        }
        return Severity::Warn;
    }
    let low = to_lower(&raw);
    if has_infix(&low, &chars_of("error")) || has_infix(&low, &chars_of("warn")) || has_infix(
        &low,
        &chars_of("fail"),
    ) {
        if has_infix(&raw, &chars_of("error:")) {
            *in_diagnostic_block = true;
        }
        Severity::Warn
    } else if has_infix(&low, &chars_of("submissions")) {
        Severity::Info
    } else {
        Severity::Debug
    }
}

/// Classifies one line and says whether it continues a diagnostic.
pub fn classify_line(line: &str, in_diagnostic_block: &mut bool) -> (out: ClassifiedLine)
    ensures
        out.severity == severity_of(*old(in_diagnostic_block), line@),
        out.continuation == *old(in_diagnostic_block),
        *final(in_diagnostic_block) == block_after(*old(in_diagnostic_block), line@),
{
    let continuation = *in_diagnostic_block;
    let severity = classify(line, in_diagnostic_block);
    ClassifiedLine { severity, continuation }
}

/// Every line inside a diagnostic is a warning, whatever it says.
pub proof fn lemma_block_lines_warn(line: Seq<char>)
    ensures
        severity_of(true, line) == Severity::Warn,
{
}

/// The arguments that the Java runtime is started with: `-jar`, the jar,
/// then the tool's own arguments in order.
pub open spec fn tool_arguments(jar: Seq<char>, args: Seq<Seq<char>>) -> Seq<Seq<char>> {
    seq!["-jar"@, jar] + args
}

/// The arguments for running the tool `jar` with `args`.
pub fn command_arguments(jplag_jar: &str, jplag_args: &Vec<String>) -> (out: Vec<String>)
    ensures
        texts(out@) == tool_arguments(jplag_jar@, texts(jplag_args@)),
{
    let mut out: Vec<String> = Vec::new();
    out.push("-jar".to_owned());
    out.push(jplag_jar.to_owned());
    let ghost head = texts(out@);
    assert(head =~= seq!["-jar"@, jplag_jar@]);
    let mut i: usize = 0;
    while i < jplag_args.len()
        invariant
            i <= jplag_args.len(),
            texts(out@) == head + texts(jplag_args@).subrange(0, i as int),
        decreases jplag_args.len() - i,
    {
        let ghost before = texts(out@);
        out.push(jplag_args[i].clone());
        assert(texts(out@) =~= before.push(jplag_args@[i as int]@));
        assert(texts(jplag_args@)[i as int] == jplag_args@[i as int]@);
        i = i + 1;
        assert(texts(out@) =~= head + texts(jplag_args@).subrange(0, i as int));
    }
    assert(texts(jplag_args@).subrange(0, i as int) =~= texts(jplag_args@));
    out
}

/// The first `n` arguments, each with a blank before it.
pub open spec fn spaced(args: Seq<Seq<char>>, n: int) -> Seq<char>
    decreases n,
{
    if n <= 0 {
        Seq::empty()
    } else {
        spaced(args, n - 1) + seq![' '] + args[n - 1]
    }
}

/// The command as an operator would type it: `java -jar`, the jar, and
/// each argument after a blank.
pub open spec fn command_text(jar: Seq<char>, args: Seq<Seq<char>>) -> Seq<char> {
    "java -jar "@ + jar + spaced(args, args.len() as int)
}

/// The command line to show for running the tool by hand.
pub fn command_line(jplag_jar: &str, jplag_args: &Vec<String>) -> (out: String)
    ensures
        out@ == command_text(jplag_jar@, texts(jplag_args@)),
{
    let mut out: String = "java -jar ".to_owned();
    out.append(jplag_jar);
    let ghost head = out@;
    let ghost args = texts(jplag_args@);
    let mut i: usize = 0;
    assert(out@ =~= head + spaced(args, 0));
    while i < jplag_args.len()
        invariant
            i <= jplag_args.len(),
            args == texts(jplag_args@),
            out@ == head + spaced(args, i as int),
        decreases jplag_args.len() - i,
    {
        out.append(" ");
        out.append(jplag_args[i].as_str());
        proof {
            reveal_strlit(" ");
            assert(" "@ =~= seq![' ']);
            assert(args[i as int] == jplag_args@[i as int]@);
            assert(out@ =~= head + spaced(args, i + 1));
        }
        i = i + 1;
    }
    out
}

/// The file that the tool left as its result: the last one listed in the
/// result directory, which is meant to hold exactly one.
pub fn result_file(listing: &Vec<String>) -> (r: Option<String>)
    ensures
        match r {
            Some(path) => listing@.len() > 0 && path@ == listing@.last()@,
            None => listing@.len() == 0,
        },
{
    if listing.len() == 0 {
        None
    } else {
        Some(listing[listing.len() - 1].clone())
    }
}

} // verus!
