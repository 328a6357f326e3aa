use jplag_rs::dispatch::ArchiveKind;
use jplag_rs::extract::{
    conclude, contained, decode_failure, extract, gz, gz_decoded, join, place_entry, rar,
    rar_entry, sz, tar, tar_stream_plan, unzip_to, wants_content, zip, ExtractError,
    ExtractFailure, Extraction, Payload, RarStep, Unpacked,
};
use jplag_rs::zip_reader::{ZipEntry, ZipFailure};
use std::io::Write;

fn sample_zip() -> Vec<u8> {
    let options = zip::write::SimpleFileOptions::default()
        .compression_method(zip::CompressionMethod::Stored);
    let mut writer = zip::ZipWriter::new(std::io::Cursor::new(Vec::new()));
    writer.start_file("a/b.txt", options).unwrap();
    writer.write_all(b"hello").unwrap();
    writer.add_directory("c/", options).unwrap();
    writer.finish().unwrap().into_inner()
}

fn deflated_zip() -> Vec<u8> {
    let options = zip::write::SimpleFileOptions::default()
        .compression_method(zip::CompressionMethod::Deflated);
    let mut writer = zip::ZipWriter::new(std::io::Cursor::new(Vec::new()));
    writer.start_file("src/Main.java", options).unwrap();
    writer.write_all(&vec![b'x'; 4000]).unwrap();
    writer.finish().unwrap().into_inner()
}

fn gzipped(data: &[u8]) -> Vec<u8> {
    let mut encoder = flate2::write::GzEncoder::new(Vec::new(), flate2::Compression::default());
    encoder.write_all(data).unwrap();
    encoder.finish().unwrap()
}

fn tar_stream(entries: &[(&str, &[u8])]) -> Vec<u8> {
    let mut builder = tar::Builder::new(Vec::new());
    for (path, data) in entries {
        let mut header = tar::Header::new_gnu();
        header.set_size(data.len() as u64);
        header.set_mode(0o644);
        header.set_entry_type(tar::EntryType::Regular);
        header.as_old_mut().name[..path.len()].copy_from_slice(path.as_bytes());
        header.set_cksum();
        builder.append(&header, *data).unwrap();
    }
    builder.into_inner().unwrap()
}

fn traversal(archive: &str, cause: &str) -> ExtractError {
    ExtractError {
        archive: archive.to_string(),
        failure: ExtractFailure::PathTraversal,
        cause: cause.to_string(),
    }
}

fn entry(name: &str, enclosed: Option<&str>, is_dir: bool, data: &[u8]) -> ZipEntry {
    ZipEntry {
        name: Some(name.to_string()),
        enclosed: enclosed.map(|s| s.to_string()),
        is_dir,
        data: data.to_vec(),
    }
}

#[test]
fn unzip_reproduces_the_paths_of_the_archive() {
    let items = unzip_to("tmp/alice/work.zip", sample_zip(), "tmp/alice").unwrap();
    assert_eq!(
        items,
        vec![
            Unpacked::File { path: "tmp/alice/a/b.txt".to_string(), data: b"hello".to_vec() },
            Unpacked::Directory { path: "tmp/alice/c".to_string() },
        ]
    );
}

#[test]
fn unzip_inflates_what_was_deflated() {
    let items = unzip_to("w.zip", deflated_zip(), "out/").unwrap();
    assert_eq!(
        items,
        vec![Unpacked::File { path: "out/src/Main.java".to_string(), data: vec![b'x'; 4000] }]
    );
}

#[test]
fn unzip_of_an_empty_archive_gives_nothing() {
    let bytes = zip::ZipWriter::new(std::io::Cursor::new(Vec::new())).finish().unwrap().into_inner();
    assert_eq!(unzip_to("e.zip", bytes, "out"), Ok(Vec::new()));
}

#[test]
fn unzip_refuses_what_is_no_archive() {
    let err = unzip_to("tmp/alice/work.zip", b"this is no zip archive".to_vec(), "tmp/alice")
        .unwrap_err();
    assert_eq!(err.archive, "tmp/alice/work.zip");
    assert_eq!(err.failure, ExtractFailure::Corrupt);
    assert!(!err.cause.is_empty());

    let mut cut = sample_zip();
    cut.truncate(20);
    let err = unzip_to("cut.zip", cut, "out").unwrap_err();
    assert_eq!(err.archive, "cut.zip");
    assert_eq!(err.failure, ExtractFailure::Corrupt);
}

#[test]
fn unzip_refuses_an_entry_that_leaves_the_destination() {
    let options = zip::write::SimpleFileOptions::default()
        .compression_method(zip::CompressionMethod::Stored);
    let mut writer = zip::ZipWriter::new(std::io::Cursor::new(Vec::new()));
    writer.start_file("ok.txt", options).unwrap();
    writer.write_all(b"fine").unwrap();
    writer.start_file("../../evil.txt", options).unwrap();
    writer.write_all(b"bad").unwrap();
    let bytes = writer.finish().unwrap().into_inner();
    assert_eq!(
        unzip_to("w.zip", bytes, "tmp/alice"),
        Err(ExtractError {
            archive: "w.zip".to_string(),
            failure: ExtractFailure::PathTraversal,
            cause: "../../evil.txt".to_string(),
        })
    );
}

#[test]
fn entries_are_placed_below_the_destination() {
    assert_eq!(
        place_entry("w.zip", "tmp/alice", entry("a/b.txt", Some("a/b.txt"), false, b"x")),
        Ok(Unpacked::File { path: "tmp/alice/a/b.txt".to_string(), data: b"x".to_vec() })
    );
    assert_eq!(
        place_entry("w.zip", "tmp/alice/", entry("c/", Some("c"), true, b"")),
        Ok(Unpacked::Directory { path: "tmp/alice/c".to_string() })
    );
    assert_eq!(
        place_entry("w.zip", "", entry("c/", Some("c"), true, b"")),
        Ok(Unpacked::Directory { path: "c".to_string() })
    );
}

#[test]
fn entries_that_leave_the_destination_are_refused() {
    let traversal = |cause: &str| {
        Err(ExtractError {
            archive: "w.zip".to_string(),
            failure: ExtractFailure::PathTraversal,
            cause: cause.to_string(),
        })
    };
    assert_eq!(place_entry("w.zip", "d", entry("../x", None, false, b"x")), traversal("../x"));
    assert_eq!(place_entry("w.zip", "d", entry("x", Some("../x"), false, b"x")), traversal("../x"));
    assert_eq!(place_entry("w.zip", "d", entry("x", Some("/etc/x"), false, b"x")), traversal("/etc/x"));
    assert_eq!(place_entry("w.zip", "d", entry("x", Some("a/../x"), true, b"")), traversal("a/../x"));
    assert_eq!(
        place_entry(
            "w.zip",
            "d",
            ZipEntry { name: None, enclosed: None, is_dir: false, data: Vec::new() }
        ),
        traversal("")
    );
}

#[test]
fn containment_goes_by_whole_segments() {
    assert!(contained("a/b.txt"));
    assert!(contained(""));
    assert!(contained("a/..b/c"));
    assert!(contained("a/b../c"));
    assert!(contained("..."));
    assert!(contained("./a"));
    assert!(!contained(".."));
    assert!(!contained("../a"));
    assert!(!contained("a/.."));
    assert!(!contained("a/../b"));
    assert!(!contained("/a"));
    assert!(!contained("a\0b"));
}

#[test]
fn join_puts_one_slash_between() {
    assert_eq!(join("tmp", "alice"), "tmp/alice");
    assert_eq!(join("tmp/", "alice"), "tmp/alice");
    assert_eq!(join("", "alice"), "alice");
    assert_eq!(join("tmp", ""), "tmp/");
}

#[test]
fn zip_unpacks_below_the_temp_root() {
    assert_eq!(
        zip("tmp/", "tmp/alice", "tmp/alice/sub/work.zip", sample_zip()),
        Ok(Extraction {
            kind: ArchiveKind::Zip,
            archive: "tmp/alice/sub/work.zip".to_string(),
            destination: "tmp/alice".to_string(),
            create_destination: true,
            payload: Payload::Entries(vec![
                Unpacked::File { path: "tmp/alice/a/b.txt".to_string(), data: b"hello".to_vec() },
                Unpacked::Directory { path: "tmp/alice/c".to_string() },
            ]),
        })
    );
}

#[test]
fn zip_needs_a_name_for_the_submission() {
    let no_name = |owner: &str| {
        Err(ExtractError {
            archive: "w.zip".to_string(),
            failure: ExtractFailure::NoOwnerName,
            cause: owner.to_string(),
        })
    };
    assert_eq!(zip("tmp", "tmp/..", "w.zip", sample_zip()), no_name("tmp/.."));
    assert_eq!(zip("tmp", "", "w.zip", sample_zip()), no_name(""));
    assert_eq!(zip("tmp", ".", "w.zip", sample_zip()), no_name("."));
    assert_eq!(rar("tmp", "/", "w.zip"), no_name("/"));
    assert_eq!(rar("tmp", "./", "w.zip"), no_name("./"));
    assert_eq!(rar("tmp", "tmp/../", "w.zip"), no_name("tmp/../"));
}

#[test]
fn separators_and_dots_at_the_end_of_the_owner_do_not_count() {
    for owner in ["tmp/bob", "tmp/bob/", "tmp/bob//", "tmp/bob/.", "tmp/bob/./", "bob"] {
        let plan = rar("tmp", owner, "w.rar").unwrap();
        assert_eq!(plan.destination, "tmp/bob/");
        let plan = zip("tmp", owner, "w.zip", sample_zip()).unwrap();
        assert_eq!(plan.destination, "tmp/bob");
    }
    assert_eq!(rar("tmp", "tmp/.bob", "w.rar").unwrap().destination, "tmp/.bob/");
    assert_eq!(rar("tmp", "tmp/bob.", "w.rar").unwrap().destination, "tmp/bob./");
}

#[test]
fn zip_reports_a_corrupt_archive() {
    let err = zip("tmp", "tmp/alice", "tmp/alice/w.zip", vec![1, 2, 3]).unwrap_err();
    assert_eq!(err.archive, "tmp/alice/w.zip");
    assert_eq!(err.failure, ExtractFailure::Corrupt);
}

#[test]
fn rar_unpacks_into_the_named_directory() {
    assert_eq!(
        rar("tmp", "tmp/bob", "tmp/bob/work.rar"),
        Ok(Extraction {
            kind: ArchiveKind::Rar,
            archive: "tmp/bob/work.rar".to_string(),
            destination: "tmp/bob/".to_string(),
            create_destination: true,
            payload: Payload::Source,
        })
    );
    assert_eq!(
        rar_entry("w.rar", "tmp/bob/", "src/Main.java", true),
        Ok(RarStep::UnpackFile { path: "tmp/bob/src/Main.java".to_string() })
    );
}

#[test]
fn rar_creates_the_directories_of_the_archive() {
    assert_eq!(
        rar_entry("w.rar", "tmp/bob/", "a/b.txt", true),
        Ok(RarStep::UnpackFile { path: "tmp/bob/a/b.txt".to_string() })
    );
    assert_eq!(
        rar_entry("w.rar", "tmp/bob/", "c", false),
        Ok(RarStep::CreateDirectory { path: "tmp/bob/c".to_string() })
    );
    assert_eq!(
        rar_entry("w.rar", "tmp/bob", "src/inner", false),
        Ok(RarStep::CreateDirectory { path: "tmp/bob/src/inner".to_string() })
    );
}

#[test]
fn rar_refuses_every_entry_that_leaves_the_destination() {
    assert_eq!(rar_entry("w.rar", "tmp/bob/", "../x", true), Err(traversal("w.rar", "../x")));
    assert_eq!(rar_entry("w.rar", "tmp/bob/", "../x", false), Err(traversal("w.rar", "../x")));
    assert_eq!(rar_entry("w.rar", "tmp/bob/", "/etc", false), Err(traversal("w.rar", "/etc")));
    assert_eq!(rar_entry("w.rar", "tmp/bob/", "a/../..", true), Err(traversal("w.rar", "a/../..")));
}

#[test]
fn seven_zip_unpacks_in_place() {
    assert_eq!(
        sz("tmp", "tmp/carol", "tmp/carol/w.7z"),
        Extraction {
            kind: ArchiveKind::SevenZip,
            archive: "tmp/carol/w.7z".to_string(),
            destination: "tmp/carol".to_string(),
            create_destination: false,
            payload: Payload::Source,
        }
    );
}

#[test]
fn tar_unpacks_in_place() {
    let stream = tar_stream(&[("a/b.txt", b"hello"), ("c.txt", b"")]);
    assert_eq!(
        tar("tmp", "tmp/dave", "tmp/dave/w.tar", stream.clone()),
        Ok(Extraction {
            kind: ArchiveKind::Tar,
            archive: "tmp/dave/w.tar".to_string(),
            destination: "tmp/dave".to_string(),
            create_destination: false,
            payload: Payload::TarStream(stream),
        })
    );
}

#[test]
fn tar_refuses_an_entry_that_leaves_the_destination() {
    let stream = tar_stream(&[("ok.txt", b"fine"), ("../evil.txt", b"bad"), ("/abs", b"")]);
    assert_eq!(
        tar("tmp", "tmp/dave", "tmp/dave/w.tar", stream),
        Err(traversal("tmp/dave/w.tar", "../evil.txt"))
    );
    let stream = tar_stream(&[("/etc/passwd", b"x")]);
    assert_eq!(tar("tmp", "tmp/dave", "w.tar", stream), Err(traversal("w.tar", "/etc/passwd")));
}

#[test]
fn tar_reports_a_stream_that_cannot_be_listed() {
    let err = tar("tmp", "tmp/dave", "w.tar", vec![7; 700]).unwrap_err();
    assert_eq!(err.archive, "w.tar");
    assert_eq!(err.failure, ExtractFailure::Corrupt);
    assert!(!err.cause.is_empty());
    let mut cut = tar_stream(&[("a.txt", &[1; 2000])]);
    cut.truncate(1000);
    assert_eq!(tar("tmp", "tmp/dave", "w.tar", cut).unwrap_err().failure, ExtractFailure::Corrupt);
}

#[test]
fn tar_plan_follows_the_listing() {
    let names = |list: &[&str]| Ok(list.iter().map(|s| s.to_string()).collect::<Vec<String>>());
    assert_eq!(
        tar_stream_plan(ArchiveKind::Tar, "tmp/dave", "w.tar", vec![1, 2], names(&["a", "./b/c", "d/"])),
        Ok(Extraction {
            kind: ArchiveKind::Tar,
            archive: "w.tar".to_string(),
            destination: "tmp/dave".to_string(),
            create_destination: false,
            payload: Payload::TarStream(vec![1, 2]),
        })
    );
    assert_eq!(
        tar_stream_plan(ArchiveKind::TarGz, "tmp/dave", "w.gz", vec![1], names(&["a", "b/../../c", ".."])),
        Err(traversal("w.gz", "b/../../c"))
    );
    assert_eq!(
        tar_stream_plan(ArchiveKind::Tar, "tmp/dave", "w.tar", vec![1], Err("bad header".to_string())),
        Err(ExtractError {
            archive: "w.tar".to_string(),
            failure: ExtractFailure::Corrupt,
            cause: "bad header".to_string(),
        })
    );
    assert!(tar_stream_plan(ArchiveKind::Tar, "tmp/dave", "w.tar", Vec::new(), names(&[])).is_ok());
}

#[test]
fn gz_hands_out_the_decoded_stream() {
    let stream = tar_stream(&[("src/Main.java", b"class Main {}")]);
    assert_eq!(
        gz("tmp", "tmp/erin", "tmp/erin/w.tar.gz", &gzipped(&stream)),
        Ok(Extraction {
            kind: ArchiveKind::TarGz,
            archive: "tmp/erin/w.tar.gz".to_string(),
            destination: "tmp/erin".to_string(),
            create_destination: false,
            payload: Payload::TarStream(stream),
        })
    );
}

#[test]
fn gz_reports_gzip_data_that_holds_no_tar_stream() {
    let err = gz("tmp", "tmp/erin", "w.gz", &gzipped(&[b'x'; 900])).unwrap_err();
    assert_eq!(err.archive, "w.gz");
    assert_eq!(err.failure, ExtractFailure::Corrupt);
    assert!(!err.cause.is_empty());
}

#[test]
fn gz_refuses_an_entry_that_leaves_the_destination() {
    let stream = tar_stream(&[("../../evil", b"bad")]);
    assert_eq!(
        gz("tmp", "tmp/erin", "w.gz", &gzipped(&stream)),
        Err(traversal("w.gz", "../../evil"))
    );
}

#[test]
fn gz_reports_data_that_is_no_gzip() {
    let err = gz("tmp", "tmp/erin", "tmp/erin/w.gz", &b"plain text".to_vec()).unwrap_err();
    assert_eq!(err.archive, "tmp/erin/w.gz");
    assert_eq!(err.failure, ExtractFailure::Corrupt);
    assert!(!err.cause.is_empty());
}

#[test]
fn gz_plan_follows_the_decoder() {
    assert_eq!(
        gz_decoded("tmp/erin", "w.gz", Err("invalid gzip header".to_string())),
        Err(ExtractError {
            archive: "w.gz".to_string(),
            failure: ExtractFailure::Corrupt,
            cause: "invalid gzip header".to_string(),
        })
    );
    let stream = tar_stream(&[("a.txt", b"a")]);
    assert_eq!(
        gz_decoded("tmp/erin", "w.gz", Ok(stream.clone())).unwrap().payload,
        Payload::TarStream(stream)
    );
}

#[test]
fn extract_applies_the_strategy_of_the_kind() {
    assert!(wants_content(ArchiveKind::Zip));
    assert!(wants_content(ArchiveKind::TarGz));
    assert!(!wants_content(ArchiveKind::Rar));
    assert!(!wants_content(ArchiveKind::SevenZip));
    assert!(wants_content(ArchiveKind::Tar));
    assert!(!wants_content(ArchiveKind::NotArchive));
    assert_eq!(
        extract(ArchiveKind::Zip, "tmp", "tmp/a", "tmp/a/w.zip", sample_zip()),
        zip("tmp", "tmp/a", "tmp/a/w.zip", sample_zip())
    );
    assert_eq!(
        extract(ArchiveKind::Rar, "tmp", "tmp/a", "tmp/a/w.rar", Vec::new()),
        rar("tmp", "tmp/a", "tmp/a/w.rar")
    );
    assert_eq!(
        extract(ArchiveKind::SevenZip, "tmp", "tmp/a", "tmp/a/w.7z", Vec::new()),
        Ok(sz("tmp", "tmp/a", "tmp/a/w.7z"))
    );
    let stream = tar_stream(&[("a.txt", b"abc")]);
    assert_eq!(
        extract(ArchiveKind::Tar, "tmp", "tmp/a", "tmp/a/w.tar", stream.clone()),
        tar("tmp", "tmp/a", "tmp/a/w.tar", stream.clone())
    );
    assert_eq!(
        extract(ArchiveKind::TarGz, "tmp", "tmp/a", "tmp/a/w.gz", gzipped(&stream)).unwrap().payload,
        Payload::TarStream(stream)
    );
}

#[test]
fn archive_goes_after_success_and_stays_after_failure() {
    assert_eq!(conclude("tmp/a/w.zip", None), Ok("tmp/a/w.zip".to_string()));
    assert_eq!(
        conclude("tmp/a/w.zip", Some((ExtractFailure::Filesystem, "disk full".to_string()))),
        Err(ExtractError {
            archive: "tmp/a/w.zip".to_string(),
            failure: ExtractFailure::Filesystem,
            cause: "disk full".to_string(),
        })
    );
}

#[test]
fn decoder_failures_are_sorted_into_corrupt_and_unsupported() {
    let error = |failure: ExtractFailure, cause: &str| ExtractError {
        archive: "w.zip".to_string(),
        failure,
        cause: cause.to_string(),
    };
    assert_eq!(
        decode_failure("w.zip", ZipFailure::Io("unexpected end of file".to_string())),
        error(ExtractFailure::Corrupt, "unexpected end of file")
    );
    assert_eq!(
        decode_failure("w.zip", ZipFailure::InvalidArchive("no directory".to_string())),
        error(ExtractFailure::Corrupt, "no directory")
    );
    assert_eq!(
        decode_failure("w.zip", ZipFailure::UnsupportedArchive("multi-disk".to_string())),
        error(ExtractFailure::Unsupported, "multi-disk")
    );
    assert_eq!(
        decode_failure("w.zip", ZipFailure::FileNotFound),
        error(ExtractFailure::Corrupt, "specified file not found in archive")
    );
    assert_eq!(
        decode_failure("w.zip", ZipFailure::InvalidPassword),
        error(ExtractFailure::Unsupported, "provided password is incorrect")
    );
    assert_eq!(
        decode_failure("w.zip", ZipFailure::CompressionMethodNotSupported(99)),
        error(ExtractFailure::Unsupported, "compression method not supported")
    );
    assert_eq!(
        decode_failure("w.zip", ZipFailure::Other("odd".to_string())),
        error(ExtractFailure::Corrupt, "odd")
    );
}

#[test]
fn unzip_keeps_the_order_of_the_archive() {
    let options = zip::write::SimpleFileOptions::default()
        .compression_method(zip::CompressionMethod::Stored);
    let mut writer = zip::ZipWriter::new(std::io::Cursor::new(Vec::new()));
    for name in ["z.txt", "a.txt", "m/n.txt"] {
        writer.start_file(name, options).unwrap();
        writer.write_all(name.as_bytes()).unwrap();
    }
    let bytes = writer.finish().unwrap().into_inner();
    let paths: Vec<String> = unzip_to("w.zip", bytes, "d")
        .unwrap()
        .into_iter()
        .map(|item| match item {
            Unpacked::File { path, data } => format!("{path}={}", String::from_utf8(data).unwrap()),
            Unpacked::Directory { path } => path,
        })
        .collect();
    assert_eq!(paths, vec!["d/z.txt=z.txt", "d/a.txt=a.txt", "d/m/n.txt=m/n.txt"]);
}
