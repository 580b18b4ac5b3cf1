// Runs of the editor from the command line down to the tag, with the files
// held in memory: each test gives the arguments of one or more runs and
// checks what is printed and what the files hold afterwards.

use rsid3::{
    list_file, Cli, Comment, Content, ExtendedText, Frame, Next, Plan, Session, Tag, Version,
};

/// A file on the disk of a test: its path and the tag it holds, if any.
struct TestFile {
    path: String,
    tag: Option<Tag>,
}

impl TestFile {
    /// A file without a tag.
    fn empty() -> Self {
        TestFile { path: "sample_0.mp3".to_string(), tag: None }
    }

    /// A file with a TIT2 "Sample Title" tag.
    fn tit2() -> Self {
        let mut tag = Tag::with_version(Version::Id3v24);
        tag.push(Frame::text("TIT2", "Sample Title"));
        TestFile { path: "sample_TIT2.mp3".to_string(), tag: Some(tag) }
    }

    /// A file with a TXXX[Description] "Sample Content" tag.
    fn txxx() -> Self {
        let mut tag = Tag::with_version(Version::Id3v24);
        tag.push(Frame::with_content(
            "TXXX",
            Content::ExtendedText(ExtendedText {
                description: "Description".to_string(),
                value: "Sample Content".to_string(),
            }),
        ));
        TestFile { path: "sample_TXXX.mp3".to_string(), tag: Some(tag) }
    }

    /// A file with a COMM[Description](eng) "Sample Content" tag.
    fn comm() -> Self {
        let mut tag = Tag::with_version(Version::Id3v24);
        tag.push(Frame::with_content(
            "COMM",
            Content::Comment(Comment {
                lang: "eng".to_string(),
                description: "Description".to_string(),
                text: "Sample Content".to_string(),
            }),
        ));
        TestFile { path: "sample_COMM.mp3".to_string(), tag: Some(tag) }
    }

    /// A file with the seven text frames of a released track.
    fn nirvana() -> Self {
        let mut tag = Tag::with_version(Version::Id3v24);
        tag.push(Frame::text("TIT2", "Smells Like Teen Spirit"));
        tag.push(Frame::text("TPE1", "Nirvana"));
        tag.push(Frame::text("TPE2", "Nirvana"));
        tag.push(Frame::text("TALB", "Nevermind"));
        tag.push(Frame::text("TDOR", "1991"));
        tag.push(Frame::text("TRCK", "01/13"));
        tag.push(Frame::text("TCON", "Grunge Rock"));
        TestFile { path: "sample_nirvana.mp3".to_string(), tag: Some(tag) }
    }

    fn path(&self) -> &str {
        &self.path
    }
}

/// What a run leaves behind.
struct Output {
    success: bool,
    stdout: Vec<u8>,
    stderr: Vec<u8>,
}

fn file_index(files: &[&mut TestFile], path: &str) -> usize {
    match files.iter().position(|f| f.path == path) {
        Some(i) => i,
        None => panic!("no such file: {}", path),
    }
}

/// One run of the editor with the given arguments on the given files.
fn rsid3_run(files: &mut [&mut TestFile], args: &[&str]) -> Output {
    let mut argv: Vec<String> = vec!["rsid3".to_string()];
    for a in args {
        argv.push(a.to_string());
    }
    let mut out = Output { success: true, stdout: Vec::new(), stderr: Vec::new() };
    let cli = match Cli::parse_args(&argv) {
        Ok(cli) => cli,
        Err(e) => {
            out.stderr.extend(format!("{}\n", e.report()).bytes());
            out.success = false;
            return out;
        }
    };
    let plan = match cli.plan() {
        Ok(plan) => plan,
        Err(e) => {
            out.stderr.extend(format!("{}\n", e.report()).bytes());
            out.success = false;
            return out;
        }
    };
    match plan {
        Plan::Help => out.stdout.extend(Cli::print_usage().bytes()),
        Plan::Version => out.stdout.extend(
            Cli::print_version("1.2.3", "0123456789abcdef0123", "2024-01-01T00:00:00Z").bytes(),
        ),
        Plan::ListFrames => out.stdout.extend(Cli::print_all_frames().bytes()),
        Plan::Usage => {
            out.stdout.extend(Cli::print_usage().bytes());
            out.success = false;
        }
        Plan::Show => {
            let mut first = true;
            for path in &cli.files {
                let i = file_index(files, path);
                let listing = list_file(path, files[i].tag.as_ref(), first);
                first = false;
                out.stdout.extend(listing.out.bytes());
                out.stderr.extend(listing.notice.bytes());
                for w in &listing.warnings {
                    out.stderr.extend(format!("{}\n", w.report()).bytes());
                }
            }
        }
        Plan::Edit(separators) => {
            let mut printed_in_run = false;
            for path in &cli.files {
                let i = file_index(files, path);
                let mut session = Session::open(files[i].tag.clone(), printed_in_run);
                for action in &cli.actions {
                    let step = session.apply(&separators, action);
                    out.stdout.extend(step.out.bytes());
                    for e in &step.err {
                        out.stderr.extend(format!("{}\n", e).bytes());
                    }
                    match step.next {
                        Next::Continue => {}
                        Next::Purge => {
                            files[i].tag = None;
                            session.purged();
                        }
                        Next::Abort => {
                            out.success = false;
                            return out;
                        }
                    }
                }
                if session.needs_write() {
                    files[i].tag = Some(session.tag.clone());
                }
                printed_in_run = session.printed_in_run;
            }
        }
    }
    out
}

fn contains(haystack: &[u8], needle: &[u8]) -> bool {
    haystack.windows(needle.len()).any(|w| w == needle)
}

/// Whether `needles` occur in `haystack` one after the other.
fn contains_in_order(haystack: &[u8], needles: &[&[u8]]) -> bool {
    let mut from = 0;
    for needle in needles {
        match haystack[from..].windows(needle.len()).position(|w| w == *needle) {
            Some(at) => from += at + needle.len(),
            None => return false,
        }
    }
    true
}

/// Whether `line` is one of the lines of `text`.
fn has_line(text: &[u8], line: &[u8]) -> bool {
    text.split(|&b| b == b'\n').any(|l| l == line)
}

#[test]
fn prints_help() {
    let output = rsid3_run(&mut [], &["--help"]);
    assert!(output.success);
    assert!(output.stdout.starts_with(b"Usage:"));

    let output = rsid3_run(&mut [], &["-h"]);
    assert!(output.success);
    assert!(output.stdout.starts_with(b"Usage:"));
}

#[test]
fn prints_version() {
    let expected_prefix = &[
        b"rsid3 ".as_slice(),
        "1.2.3".as_bytes(),
        b"-",
        "0123456789abcdef0123".chars().take(8).collect::<String>().as_bytes(),
    ]
    .concat();

    let output = rsid3_run(&mut [], &["--version"]);
    assert!(output.success);
    assert!(output.stdout.starts_with(expected_prefix));

    let output = rsid3_run(&mut [], &["-V"]);
    assert!(output.success);
    assert!(output.stdout.starts_with(expected_prefix));
}

#[test]
fn prints_supported_frames() {
    let re: &[&[u8]] =
        &[b"Read-write frames", b"COMM", b"TIT2", b"Read-only frames", b"APIC", b"USER"];

    let output = rsid3_run(&mut [], &["--list-frames"]);
    assert!(output.success);
    assert!(contains_in_order(&output.stdout, re));

    let output = rsid3_run(&mut [], &["-L"]);
    assert!(output.success);
    assert!(contains_in_order(&output.stdout, re));
}

#[test]
fn prints_no_tag() {
    let mut file = TestFile::empty();
    let path = file.path().to_string();
    let output = rsid3_run(&mut [&mut file], &[&path]);
    assert!(output.success);
    assert_eq!(output.stderr, [path.as_bytes(), b": No tag found\n"].concat());
}

#[test]
fn prints_all_frames() {
    let mut file = TestFile::tit2();
    let path = file.path().to_string();
    let output = rsid3_run(&mut [&mut file], &[&path]);
    assert!(output.success);
    assert_eq!(
        output.stdout,
        [path.as_bytes(), b": ID3v2.4, 1 frame:\n", b"TIT2: Sample Title\n"].concat()
    );

    let mut file = TestFile::txxx();
    let path = file.path().to_string();
    let output = rsid3_run(&mut [&mut file], &[&path]);
    assert!(output.success);
    assert_eq!(
        output.stdout,
        [path.as_bytes(), b": ID3v2.4, 1 frame:\n", b"TXXX[Description]: Sample Content\n"]
            .concat()
    );

    let mut file = TestFile::comm();
    let path = file.path().to_string();
    let output = rsid3_run(&mut [&mut file], &[&path]);
    assert!(output.success);
    assert_eq!(
        output.stdout,
        [
            path.as_bytes(),
            b": ID3v2.4, 1 frame:\n",
            b"COMM[Description](eng): Sample Content\n",
        ]
        .concat()
    );

    let mut file = TestFile::nirvana();
    let path = file.path().to_string();
    let output = rsid3_run(&mut [&mut file], &[&path]);
    assert!(output.success);
    assert!(has_line(&output.stdout, b"TPE1: Nirvana"));
    assert!(has_line(&output.stdout, b"TPE2: Nirvana"));
    assert!(has_line(&output.stdout, b"TALB: Nevermind"));
    assert!(has_line(&output.stdout, b"TIT2: Smells Like Teen Spirit"));
    assert!(has_line(&output.stdout, b"TDOR: 1991"));
    assert!(has_line(&output.stdout, b"TRCK: 01/13"));
    assert!(has_line(&output.stdout, b"TCON: Grunge Rock"));
    assert!(output.stdout.starts_with(&[path.as_bytes(), b": ID3v2.4, 7 frames:\n"].concat()));
    assert_eq!(output.stdout.iter().filter(|&&x| x == b'\n').count(), 8);
}

#[test]
fn prints_all_frames_multiple_files() {
    let mut file1 = TestFile::tit2();
    let mut file2 = TestFile::txxx();
    let fpath1 = file1.path().to_string();
    let fpath2 = file2.path().to_string();

    let output = rsid3_run(&mut [&mut file1, &mut file2], &[&fpath1, &fpath2]);
    assert!(output.success);
    assert_eq!(
        output.stdout,
        [
            fpath1.as_bytes(),
            b": ID3v2.4, 1 frame:\n",
            b"TIT2: Sample Title\n\n",
            fpath2.as_bytes(),
            b": ID3v2.4, 1 frame:\n",
            b"TXXX[Description]: Sample Content\n",
        ]
        .concat()
    );

    let output = rsid3_run(&mut [&mut file1, &mut file2], &["--", &fpath2, &fpath1]);
    assert!(output.success);
    assert_eq!(
        output.stdout,
        [
            fpath2.as_bytes(),
            b": ID3v2.4, 1 frame:\n",
            b"TXXX[Description]: Sample Content\n\n",
            fpath1.as_bytes(),
            b": ID3v2.4, 1 frame:\n",
            b"TIT2: Sample Title\n",
        ]
        .concat()
    );
}

#[test]
fn prints_single_frame() {
    let mut file = TestFile::tit2();
    let fpath = file.path().to_string();
    let output = rsid3_run(&mut [&mut file], &["--TIT2", &fpath]);
    assert!(output.success);
    assert_eq!(output.stdout, b"Sample Title");

    let mut file = TestFile::txxx();
    let fpath = file.path().to_string();
    let output = rsid3_run(&mut [&mut file], &["--TXXX", "Description", &fpath]);
    assert!(output.success);
    assert_eq!(output.stdout, b"Sample Content");

    let mut file = TestFile::comm();
    let fpath = file.path().to_string();
    let output = rsid3_run(&mut [&mut file], &["--COMM", "Description", "eng", &fpath]);
    assert!(output.success);
    assert_eq!(output.stdout, b"Sample Content");

    let mut file = TestFile::nirvana();
    let fpath = file.path().to_string();
    let output = rsid3_run(&mut [&mut file], &["--TIT2", &fpath]);
    assert!(output.success);
    assert_eq!(output.stdout, b"Smells Like Teen Spirit");
    let output = rsid3_run(&mut [&mut file], &["--TPE1", &fpath]);
    assert!(output.success);
    assert_eq!(output.stdout, b"Nirvana");
    let output = rsid3_run(&mut [&mut file], &["--TRCK", &fpath]);
    assert!(output.success);
    assert_eq!(output.stdout, b"01/13");
}

#[test]
fn prints_missing_frame() {
    let mut file = TestFile::tit2();
    let fpath = file.path().to_string();
    let output = rsid3_run(&mut [&mut file], &["--TPE1", &fpath]);
    assert!(output.stdout.is_empty());
    let output = rsid3_run(&mut [&mut file], &["--TXXX", "abc", &fpath]);
    assert!(output.stdout.is_empty());
    let output = rsid3_run(&mut [&mut file], &["--COMM", "abc", "eng", &fpath]);
    assert!(output.stdout.is_empty());
}

#[test]
fn prints_multiple_frames() {
    let mut file = TestFile::tit2();
    let fpath = file.path().to_string();
    let output = rsid3_run(&mut [&mut file], &["--TIT2", "--TPE1", "--TALB", &fpath]);
    assert!(output.success);
    assert_eq!(output.stdout, b"Sample Title\n\n");

    let mut file = TestFile::nirvana();
    let fpath = file.path().to_string();
    let output = rsid3_run(&mut [&mut file], &["--TIT2", "--TPE1", "--TALB", &fpath]);
    assert!(output.success);
    assert_eq!(output.stdout, b"Smells Like Teen Spirit\nNirvana\nNevermind");
}

#[test]
fn prints_multiple_frames_with_delimiter() {
    let mut file = TestFile::tit2();
    let fpath = file.path().to_string();
    let output = rsid3_run(&mut [&mut file], &["-d,", "--TIT2", "--TPE1", "--TALB", &fpath]);
    assert!(output.success);
    assert_eq!(output.stdout, b"Sample Title,,");
    let output = rsid3_run(&mut [&mut file], &["-0d", "--TIT2", "--TPE1", "--TALB", &fpath]);
    assert!(output.success);
    assert_eq!(output.stdout, b"Sample Title\0\0");

    let mut file = TestFile::nirvana();
    let fpath = file.path().to_string();
    let output =
        rsid3_run(&mut [&mut file], &["--TIT2", "--TPE1", "--TALB", "-d", "abc", &fpath]);
    assert!(output.success);
    assert_eq!(output.stdout, b"Smells Like Teen SpiritabcNirvanaabcNevermind");
}

#[test]
fn prints_single_frame_multiple_files() {
    let mut file1 = TestFile::tit2();
    let mut file2 = TestFile::nirvana();
    let fpath1 = file1.path().to_string();
    let fpath2 = file2.path().to_string();
    let output = rsid3_run(&mut [&mut file1, &mut file2], &["--TIT2", &fpath1, &fpath2]);
    assert!(output.success);
    assert_eq!(output.stdout, b"Sample Title\nSmells Like Teen Spirit");

    let output = rsid3_run(&mut [&mut file1, &mut file2], &["--TIT2", &fpath2, &fpath1]);
    assert!(output.success);
    assert_eq!(output.stdout, b"Smells Like Teen Spirit\nSample Title");
}

#[test]
fn prints_single_frame_multiple_files_with_delimiter() {
    let mut file1 = TestFile::tit2();
    let mut file2 = TestFile::nirvana();
    let fpath1 = file1.path().to_string();
    let fpath2 = file2.path().to_string();
    let output = rsid3_run(&mut [&mut file1, &mut file2], &["--TIT2", "-D,", &fpath1, &fpath2]);
    assert!(output.success);
    assert_eq!(output.stdout, b"Sample Title,Smells Like Teen Spirit");
    let output = rsid3_run(&mut [&mut file1, &mut file2], &["--TIT2", "-0D", &fpath1, &fpath2]);
    assert!(output.success);
    assert_eq!(output.stdout, b"Sample Title\0Smells Like Teen Spirit");

    let output =
        rsid3_run(&mut [&mut file1, &mut file2], &["-D", "abc", "--TIT2", &fpath2, &fpath1]);
    assert!(output.success);
    assert_eq!(output.stdout, b"Smells Like Teen SpiritabcSample Title");
}

#[test]
fn prints_multiple_frames_multiple_files_with_delimiters() {
    let mut file1 = TestFile::tit2();
    let mut file2 = TestFile::nirvana();
    let fpath1 = file1.path().to_string();
    let fpath2 = file2.path().to_string();
    let output = rsid3_run(
        &mut [&mut file1, &mut file2],
        &["-d,", "-Dabc", "--TIT2", "--TPE1", "--TALB", &fpath1, &fpath2],
    );
    assert!(output.success);
    assert_eq!(output.stdout, b"Sample Title,,abcSmells Like Teen Spirit,Nirvana,Nevermind");

    let output = rsid3_run(
        &mut [&mut file1, &mut file2],
        &["-0d", "-0D", "--TIT2", "--TPE1", "--TALB", &fpath1, &fpath2],
    );
    assert!(output.success);
    assert_eq!(output.stdout, b"Sample Title\0\0\0Smells Like Teen Spirit\0Nirvana\0Nevermind");
}

#[test]
fn sets_text_frame() {
    let mut file = TestFile::empty();
    let fpath = file.path().to_string();
    let output = rsid3_run(&mut [&mut file], &["--TIT2=", "new title", &fpath]);
    assert!(output.success);
    assert!(output.stdout.is_empty());

    let output = rsid3_run(&mut [&mut file], &["--TIT2", &fpath]);
    assert!(output.success);
    assert_eq!(output.stdout, b"new title");
}

#[test]
fn sets_txxx_frame() {
    let mut file = TestFile::empty();
    let fpath = file.path().to_string();
    let output = rsid3_run(&mut [&mut file], &["--TXXX=", "desc", "content", &fpath]);
    assert!(output.success);
    assert!(output.stdout.is_empty());

    let output = rsid3_run(&mut [&mut file], &["--TXXX", "desc", &fpath]);
    assert!(output.success);
    assert_eq!(output.stdout, b"content");
}

#[test]
fn sets_comm_frame() {
    let mut file = TestFile::empty();
    let fpath = file.path().to_string();
    let output = rsid3_run(&mut [&mut file], &["--COMM=", "desc", "eng", "content", &fpath]);
    assert!(output.success);
    assert!(output.stdout.is_empty());

    let output = rsid3_run(&mut [&mut file], &["--COMM", "desc", "eng", &fpath]);
    assert!(output.success);
    assert_eq!(output.stdout, b"content");
}

#[test]
fn deletes_text_frame() {
    let mut file = TestFile::tit2();
    let fpath = file.path().to_string();

    let output = rsid3_run(&mut [&mut file], &["--TIT2", &fpath]);
    assert!(output.success);
    assert!(!output.stdout.is_empty());

    let output = rsid3_run(&mut [&mut file], &["--TIT2-", &fpath]);
    assert!(output.success);
    assert!(output.stdout.is_empty());

    let output = rsid3_run(&mut [&mut file], &["--TIT2", &fpath]);
    assert!(output.success);
    assert!(output.stdout.is_empty());
}

#[test]
fn deletes_txxx_frame() {
    let mut file = TestFile::txxx();
    let fpath = file.path().to_string();

    let output = rsid3_run(&mut [&mut file], &["--TXXX", "Description", &fpath]);
    assert!(output.success);
    assert!(!output.stdout.is_empty());

    let output = rsid3_run(&mut [&mut file], &["--TXXX-", "Description", &fpath]);
    assert!(output.success);
    assert!(output.stdout.is_empty());

    let output = rsid3_run(&mut [&mut file], &["--TXXX", "Description", &fpath]);
    assert!(output.success);
    assert!(output.stdout.is_empty());
}

#[test]
fn deletes_comm_frame() {
    let mut file = TestFile::comm();
    let fpath = file.path().to_string();

    let output = rsid3_run(&mut [&mut file], &["--COMM", "Description", "eng", &fpath]);
    assert!(output.success);
    assert!(!output.stdout.is_empty());

    let output = rsid3_run(&mut [&mut file], &["--COMM-", "Description", "eng", &fpath]);
    assert!(output.success);
    assert!(output.stdout.is_empty());

    let output = rsid3_run(&mut [&mut file], &["--COMM", "Description", "eng", &fpath]);
    assert!(output.success);
    assert!(output.stdout.is_empty());
}

#[test]
fn executes_actions_in_passed_order() {
    // Print title and then change it
    let mut file = TestFile::nirvana();
    let fpath = file.path().to_string();
    let output = rsid3_run(&mut [&mut file], &["--TIT2", "--TIT2=", "new title", &fpath]);
    assert!(output.success);
    assert_eq!(output.stdout, b"Smells Like Teen Spirit");

    // Change title and then print it
    let mut file = TestFile::nirvana();
    let fpath = file.path().to_string();
    let output = rsid3_run(&mut [&mut file], &["--TIT2=", "new title", "--TIT2", &fpath]);
    assert!(output.success);
    assert_eq!(output.stdout, b"new title");
}

#[test]
fn usage_fails_without_files_and_actions() {
    let output = rsid3_run(&mut [], &[]);
    assert!(!output.success);
    assert!(output.stdout.starts_with(b"Usage:"));
}

#[test]
fn unknown_option_fails_before_any_file() {
    let mut file = TestFile::tit2();
    let fpath = file.path().to_string();
    let output = rsid3_run(&mut [&mut file], &["--bogus", &fpath]);
    assert!(!output.success);
    assert!(output.stdout.is_empty());
    assert_eq!(output.stderr, b"rsid3: Unknown option: '--bogus', try 'rsid3 --help'\n");
}

#[test]
fn file_without_title_prints_separator_only() {
    let mut file1 = TestFile::tit2();
    let mut file2 = TestFile::empty();
    let fpath1 = file1.path().to_string();
    let fpath2 = file2.path().to_string();
    let output = rsid3_run(&mut [&mut file1, &mut file2], &["--TIT2", &fpath1, &fpath2]);
    assert!(output.success);
    assert_eq!(output.stdout, b"Sample Title\n");
    assert!(contains(&output.stderr, b"Frame not found: TIT2"));
}

#[test]
fn set_on_empty_file_writes_default_version() {
    let mut file = TestFile::empty();
    let fpath = file.path().to_string();
    let output = rsid3_run(&mut [&mut file], &["--TIT2=", "new title", &fpath]);
    assert!(output.success);
    match &file.tag {
        Some(tag) => {
            assert_eq!(tag.version, Version::Id3v24);
            assert_eq!(tag.frames.len(), 1);
        }
        None => panic!("nothing was written"),
    }
}

#[test]
fn purge_removes_the_tag_at_once() {
    let mut file = TestFile::tit2();
    let fpath = file.path().to_string();
    let output = rsid3_run(&mut [&mut file], &["--purge-id3v2.3", &fpath]);
    assert!(output.success);
    assert!(file.tag.is_some());
    let output = rsid3_run(&mut [&mut file], &["--purge-id3v2.4", "--TIT2", &fpath]);
    assert!(output.success);
    assert!(output.stdout.is_empty());
    assert!(file.tag.is_none());
    let mut file = TestFile::tit2();
    let output = rsid3_run(&mut [&mut file], &["--purge-all", "--TIT2=", "again", &fpath]);
    assert!(output.success);
    assert_eq!(file.tag, {
        let mut tag = Tag::with_version(Version::Id3v24);
        tag.push(Frame::text("TIT2", "again"));
        Some(tag)
    });
}

#[test]
fn strict_convert_fails_and_forced_convert_drops() {
    let mut tag = Tag::with_version(Version::Id3v24);
    tag.push(Frame::text("TIT2", "Sample Title"));
    tag.push(Frame::text("TDRC", "2024"));
    let mut file = TestFile { path: "sample_TDRC.mp3".to_string(), tag: Some(tag.clone()) };
    let fpath = file.path().to_string();

    let output = rsid3_run(&mut [&mut file], &["--id3v2.2", "--TIT2=", "lost", &fpath]);
    assert!(!output.success);
    assert!(output.stdout.is_empty());
    assert_eq!(
        output.stderr,
        b"rsid3: Cannot convert tag from ID3v2.4 to ID3v2.2: Incompatible frames: TDRC\n"
    );
    assert_eq!(file.tag, Some(tag));

    let output = rsid3_run(&mut [&mut file], &["--force-id3v2.2", &fpath]);
    assert!(output.success);
    assert!(output.stderr.is_empty());
    let mut converted = Tag::with_version(Version::Id3v22);
    converted.push(Frame::text("TIT2", "Sample Title"));
    assert_eq!(file.tag, Some(converted));
}

#[test]
fn unsupported_write_stops_the_run() {
    let mut file1 = TestFile::tit2();
    let mut file2 = TestFile::nirvana();
    let fpath1 = file1.path().to_string();
    let fpath2 = file2.path().to_string();
    // The catalogue has no such frame to write, so the option itself is refused.
    let output = rsid3_run(
        &mut [&mut file1, &mut file2],
        &["--TALB=", "x", "--APIC=", "y", &fpath1, &fpath2],
    );
    assert!(!output.success);
    assert_eq!(output.stderr, b"rsid3: Unknown option: '--APIC=', try 'rsid3 --help'\n");
    assert_eq!(file1.tag, TestFile::tit2().tag);
    assert_eq!(file2.tag, TestFile::nirvana().tag);
}

#[test]
fn file_without_tag_between_listed_files() {
    let mut file1 = TestFile::tit2();
    let mut file2 = TestFile::empty();
    let mut file3 = TestFile::txxx();
    let fpath1 = file1.path().to_string();
    let fpath2 = file2.path().to_string();
    let fpath3 = file3.path().to_string();
    let output =
        rsid3_run(&mut [&mut file1, &mut file2, &mut file3], &[&fpath2, &fpath1, &fpath2, &fpath3]);
    assert!(output.success);
    assert_eq!(
        output.stdout,
        [
            b"\n".as_slice(),
            fpath1.as_bytes(),
            b": ID3v2.4, 1 frame:\nTIT2: Sample Title\n\n\n",
            fpath3.as_bytes(),
            b": ID3v2.4, 1 frame:\nTXXX[Description]: Sample Content\n",
        ]
        .concat()
    );
    assert_eq!(
        output.stderr,
        [fpath2.as_bytes(), b": No tag found\n", fpath2.as_bytes(), b": No tag found\n"].concat()
    );
}
