use jplag_rs::custom_errors::{decimal_of, exit_verdict, FileNotFoundError, SubCmdError};
use jplag_rs::runner::{classify, classify_line, command_arguments, command_line, ClassifiedLine, Severity};

#[test]
fn diagnostic_block_runs_to_the_caret() {
    let mut in_block = false;
    assert_eq!(classify("error: cannot find symbol", &mut in_block), Severity::Warn);
    assert!(in_block);
    assert_eq!(classify("        ^", &mut in_block), Severity::Warn);
    assert!(!in_block);
    assert_eq!(classify("a plain line", &mut in_block), Severity::Debug);
    assert!(!in_block);
}

#[test]
fn lines_inside_a_block_are_warnings() {
    let mut in_block = false;
    assert_eq!(classify("Main.java:3: error: ';' expected", &mut in_block), Severity::Warn);
    assert!(in_block);
    assert_eq!(classify("    int x = 1", &mut in_block), Severity::Warn);
    assert!(in_block);
    assert_eq!(classify("12 submissions parsed", &mut in_block), Severity::Warn);
    assert!(in_block);
    assert_eq!(classify("          ^ here", &mut in_block), Severity::Warn);
    assert!(!in_block);
    assert_eq!(classify("12 submissions parsed", &mut in_block), Severity::Info);
}

#[test]
fn keywords_match_without_regard_to_case() {
    let mut in_block = false;
    assert_eq!(classify("WARNING: slow", &mut in_block), Severity::Warn);
    assert!(!in_block);
    assert_eq!(classify("Parsing FAILED", &mut in_block), Severity::Warn);
    assert!(!in_block);
    assert_eq!(classify("3 Errors", &mut in_block), Severity::Warn);
    assert!(!in_block);
    assert_eq!(classify("ERROR: upper case opens no block", &mut in_block), Severity::Warn);
    assert!(!in_block);
    assert_eq!(classify("Submissions: 12", &mut in_block), Severity::Info);
    assert_eq!(classify("", &mut in_block), Severity::Debug);
    assert_eq!(classify("^", &mut in_block), Severity::Debug);
    assert!(!in_block);
}

#[test]
fn keyword_goes_before_the_submission_count() {
    let mut in_block = false;
    assert_eq!(classify("2 submissions failed", &mut in_block), Severity::Warn);
    assert!(!in_block);
}

#[test]
fn classified_line_marks_continuations() {
    let mut in_block = false;
    assert_eq!(
        classify_line("error: boom", &mut in_block),
        ClassifiedLine { severity: Severity::Warn, continuation: false }
    );
    assert_eq!(
        classify_line("  ^", &mut in_block),
        ClassifiedLine { severity: Severity::Warn, continuation: true }
    );
    assert_eq!(
        classify_line("done", &mut in_block),
        ClassifiedLine { severity: Severity::Debug, continuation: false }
    );
}

#[test]
fn command_is_java_with_the_jar_and_the_arguments() {
    let args = vec!["tmp/".to_string(), "-r".to_string(), "out/results".to_string()];
    assert_eq!(command_arguments("jplag.jar", &args), vec!["-jar", "jplag.jar", "tmp/", "-r", "out/results"]);
    assert_eq!(command_line("jplag.jar", &args), "java -jar jplag.jar tmp/ -r out/results");
    assert_eq!(command_arguments("j.jar", &Vec::new()), vec!["-jar", "j.jar"]);
    assert_eq!(command_line("j.jar", &Vec::new()), "java -jar j.jar");
}

#[test]
fn exit_code_zero_is_the_only_success() {
    assert_eq!(exit_verdict(0), Ok(()));
    assert_eq!(exit_verdict(1), Err(SubCmdError::JplagExecFailure(1)));
    assert_eq!(exit_verdict(-9), Err(SubCmdError::JplagExecFailure(-9)));
}

#[test]
fn messages_name_what_went_wrong() {
    assert_eq!(SubCmdError::JplagExecFailure(3).message(), "Jplag failed with exit code 3");
    assert_eq!(SubCmdError::JplagExecFailure(-11).message(), "Jplag failed with exit code -11");
    assert_eq!(
        FileNotFoundError::ConfigFileNotFound("my.toml".to_string()).message(),
        "Config file \"my.toml\" not found"
    );
    assert_eq!(
        FileNotFoundError::JarFileNotFound("jplag.jar".to_string()).message(),
        "Jplag jar file \"jplag.jar\" not found"
    );
    assert_eq!(
        FileNotFoundError::ZipFileNotFound("subs.zip".to_string()).message(),
        "Submission zip file \"subs.zip\" not found"
    );
    assert_eq!(
        FileNotFoundError::IgnoreFileNotFound("ignore.txt".to_string()).message(),
        "Ignore file \"ignore.txt\" not found"
    );
}

#[test]
fn numbers_are_written_in_decimal() {
    assert_eq!(decimal_of(0), "0");
    assert_eq!(decimal_of(7), "7");
    assert_eq!(decimal_of(10), "10");
    assert_eq!(decimal_of(-1), "-1");
    assert_eq!(decimal_of(1203), "1203");
    assert_eq!(decimal_of(i32::MAX), "2147483647");
    assert_eq!(decimal_of(i32::MIN), "-2147483648");
}
