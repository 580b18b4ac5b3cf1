//! The command line: which options there are, and what a list of arguments
//! asks for.

use vstd::prelude::*;
use vstd::string::*;
use crate::action::{actions_view, Action, ActionView};
use crate::catalog::{catalogue, catalogue_text, is_writable_id, writable_id};
use crate::error::{strings_view, PROGRAM};
use crate::frame::{has_lang, is_structured, kind_of_id, make_frame, Frame, FrameView, Kind};
use crate::session::{Separators, SeparatorsView};
use crate::text::{append_decimal, decimal, slice, starts_with, str_eq, substring};
use crate::version::{ConvertOpt, PurgeOpt};

verus! {

/// All that was asked for on the command line.
#[derive(Debug, PartialEq, Eq)]
pub struct Cli {
    pub help: bool,
    pub version: bool,
    pub list_frames: bool,
    pub frame_sep: Option<String>,
    pub file_sep: Option<String>,
    pub frame_sep_null: bool,
    pub file_sep_null: bool,
    pub actions: Vec<Action>,
    pub files: Vec<String>,
}

/// The mathematical value of a [`Cli`].
pub struct CliView {
    pub help: bool,
    pub version: bool,
    pub list_frames: bool,
    pub frame_sep: Option<Seq<char>>,
    pub file_sep: Option<Seq<char>>,
    pub frame_sep_null: bool,
    pub file_sep_null: bool,
    pub actions: Seq<ActionView>,
    pub files: Seq<Seq<char>>,
}

/// The value of a string that may be missing.
pub open spec fn option_view(s: Option<String>) -> Option<Seq<char>> {
    match s {
        Some(s) => Some(s@),
        None => None,
    }
}

impl View for Cli {
    type V = CliView;

    open spec fn view(&self) -> CliView {
        CliView {
            help: self.help,
            version: self.version,
            list_frames: self.list_frames,
            frame_sep: option_view(self.frame_sep),
            file_sep: option_view(self.file_sep),
            frame_sep_null: self.frame_sep_null,
            file_sep_null: self.file_sep_null,
            actions: actions_view(self.actions@),
            files: strings_view(self.files@),
        }
    }
}

/// Why a command line cannot be carried out.
#[derive(Debug, PartialEq, Eq)]
pub enum CliError {
    /// The option `option` needs `expected` arguments after it, and the
    /// command line ends before them.
    MissingArguments { option: String, expected: usize },
    /// `option` begins like an option and is none.
    UnknownOption { option: String },
    /// A frame separator was given together with the option that asks for
    /// the null byte.
    ExclusiveFrameSeparators,
    /// A file separator was given together with the option that asks for
    /// the null byte.
    ExclusiveFileSeparators,
}

/// The mathematical value of a [`CliError`].
pub enum CliErrorView {
    MissingArguments { option: Seq<char>, expected: nat },
    UnknownOption { option: Seq<char> },
    ExclusiveFrameSeparators,
    ExclusiveFileSeparators,
}

impl View for CliError {
    type V = CliErrorView;

    open spec fn view(&self) -> CliErrorView {
        match self {
            CliError::MissingArguments { option, expected } => CliErrorView::MissingArguments {
                option: option@,
                expected: *expected as nat,
            },
            CliError::UnknownOption { option } => CliErrorView::UnknownOption { option: option@ },
            CliError::ExclusiveFrameSeparators => CliErrorView::ExclusiveFrameSeparators,
            CliError::ExclusiveFileSeparators => CliErrorView::ExclusiveFileSeparators,
        }
    }
}

impl CliErrorView {
    /// The line that reports this error: the name of the program, the
    /// sentence that says what went wrong and, where the command line could
    /// not be read, a pointer to the help.
    pub open spec fn report(self) -> Seq<char> {
        match self {
            CliErrorView::MissingArguments { .. } | CliErrorView::UnknownOption { .. } => PROGRAM@
                + ": "@ + self.message() + ", try 'rsid3 --help'"@,
            _ => PROGRAM@ + ": "@ + self.message(),
        }
    }

    /// The sentence that reports this error.
    pub open spec fn message(self) -> Seq<char> {
        match self {
            CliErrorView::MissingArguments { option, expected } => decimal(expected) + (if expected
                == 1 {
                " argument expected after "@
            } else {
                " arguments expected after "@
            }) + option,
            CliErrorView::UnknownOption { option } => "Unknown option: '"@ + option + "'"@,
            CliErrorView::ExclusiveFrameSeparators =>
                "--frame-sep and --frame-sep-null options are mutually exclusive"@,
            CliErrorView::ExclusiveFileSeparators =>
                "--file-sep and --file-sep-null options are mutually exclusive"@,
        }
    }
}

impl CliError {
    /// Returns the line that reports this error, without a line feed.
    pub fn report(&self) -> (s: String)
        ensures
            s@ == self@.report(),
    {
        let mut s = String::from_str(PROGRAM);
        s.append(": ");
        s.append(self.message().as_str());
        match self {
            CliError::MissingArguments { .. } | CliError::UnknownOption { .. } => {
                s.append(", try 'rsid3 --help'");
            },
            _ => {},
        }
        s
    }

    /// Returns the sentence that reports this error.
    pub fn message(&self) -> (s: String)
        ensures
            s@ == self@.message(),
    {
        match self {
            CliError::MissingArguments { option, expected } => {
                let mut s = String::new();
                append_decimal(&mut s, *expected);
                if *expected == 1 {
                    s.append(" argument expected after ");
                } else {
                    s.append(" arguments expected after ");
                }
                s.append(option.as_str());
                s
            },
            CliError::UnknownOption { option } => {
                let mut s = String::from_str("Unknown option: '");
                s.append(option.as_str());
                s.append("'");
                s
            },
            CliError::ExclusiveFrameSeparators => String::from_str(
                "--frame-sep and --frame-sep-null options are mutually exclusive",
            ),
            CliError::ExclusiveFileSeparators => String::from_str(
                "--file-sep and --file-sep-null options are mutually exclusive",
            ),
        }
    }
}

/// What one argument of the command line is.
#[derive(Clone, Copy, Debug, PartialEq, Eq, Structural)]
pub enum Opt {
    /// `-h`, `--help`
    Help,
    /// `-V`, `--version`
    Version,
    /// `-L`, `--list-frames`
    ListFrames,
    /// `-d SEP`, `--frame-sep SEP`
    FrameSep,
    /// `-dSEP`
    FrameSepInline,
    /// `-D SEP`, `--file-sep SEP`
    FileSep,
    /// `-DSEP`
    FileSepInline,
    /// `-0d`, `--frame-sep-null`
    FrameSepNull,
    /// `-0D`, `--file-sep-null`
    FileSepNull,
    /// `--`
    EndOfOptions,
    /// `--FRAME`
    Print,
    /// `--FRAME=`
    Write,
    /// `--FRAME-`
    Delete,
    /// `--id3v2.N`, `--force-id3v2.N`
    Convert(ConvertOpt),
    /// `--purge-id3v2.N`, `--purge-all`
    Purge(PurgeOpt),
    /// Anything else that begins with `-`.
    Unknown,
    /// Anything else: the first of the files.
    File,
}

/// Whether `c` can stand in a frame identifier: a capital letter or a digit.
pub open spec fn is_id_char(c: char) -> bool {
    ('A' <= c && c <= 'Z') || ('0' <= c && c <= '9')
}

/// Whether the four characters of `arg` from position 2 on can all stand
/// in a frame identifier.
pub open spec fn names_frame(arg: Seq<char>) -> bool {
    arg.len() >= 6 && is_id_char(arg[2]) && is_id_char(arg[3]) && is_id_char(arg[4])
        && is_id_char(arg[5])
}

/// Whether `arg` asks for a print: two hyphens and a frame identifier.
pub open spec fn is_getter_arg(arg: Seq<char>) -> bool {
    arg.len() == 6 && "--"@.is_prefix_of(arg) && names_frame(arg)
}

/// Whether `arg` asks for a frame to be written: two hyphens, the
/// identifier of a frame that the catalogue has as one that can be written,
/// and an equals sign.
pub open spec fn is_setter_arg(arg: Seq<char>) -> bool {
    arg.len() == 7 && "--"@.is_prefix_of(arg) && arg[6] == '=' && is_writable_id(slice(arg, 2, 6))
}

/// Whether `arg` asks for a delete: two hyphens, a frame identifier, and a
/// hyphen.
pub open spec fn is_delete_arg(arg: Seq<char>) -> bool {
    arg.len() == 7 && "--"@.is_prefix_of(arg) && arg[6] == '-' && names_frame(arg)
}

/// What the argument `arg` is. The spellings are tried in this order, so
/// that `-d` alone takes the next argument as the separator, while `-d`
/// with more behind it holds the separator itself.
pub open spec fn option_of(arg: Seq<char>) -> Opt {
    if arg == "-h"@ || arg == "--help"@ {
        Opt::Help
    } else if arg == "-V"@ || arg == "--version"@ {
        Opt::Version
    } else if arg == "-L"@ || arg == "--list-frames"@ {
        Opt::ListFrames
    } else if arg == "-d"@ || arg == "--frame-sep"@ {
        Opt::FrameSep
    } else if "-d"@.is_prefix_of(arg) {
        Opt::FrameSepInline
    } else if arg == "-D"@ || arg == "--file-sep"@ {
        Opt::FileSep
    } else if "-D"@.is_prefix_of(arg) {
        Opt::FileSepInline
    } else if arg == "-0d"@ || arg == "--frame-sep-null"@ {
        Opt::FrameSepNull
    } else if arg == "-0D"@ || arg == "--file-sep-null"@ {
        Opt::FileSepNull
    } else if arg == "--"@ {
        Opt::EndOfOptions
    } else if is_getter_arg(arg) {
        Opt::Print
    } else if is_setter_arg(arg) {
        Opt::Write
    } else if is_delete_arg(arg) {
        Opt::Delete
    } else if arg == "--id3v2.2"@ {
        Opt::Convert(ConvertOpt::Id3v22)
    } else if arg == "--id3v2.3"@ {
        Opt::Convert(ConvertOpt::Id3v23)
    } else if arg == "--id3v2.4"@ {
        Opt::Convert(ConvertOpt::Id3v24)
    } else if arg == "--force-id3v2.2"@ {
        Opt::Convert(ConvertOpt::Id3v22Force)
    } else if arg == "--force-id3v2.3"@ {
        Opt::Convert(ConvertOpt::Id3v23Force)
    } else if arg == "--force-id3v2.4"@ {
        Opt::Convert(ConvertOpt::Id3v24Force)
    } else if arg == "--purge-id3v2.2"@ {
        Opt::Purge(PurgeOpt::Id3v22)
    } else if arg == "--purge-id3v2.3"@ {
        Opt::Purge(PurgeOpt::Id3v23)
    } else if arg == "--purge-id3v2.4"@ {
        Opt::Purge(PurgeOpt::Id3v24)
    } else if arg == "--purge-all"@ {
        Opt::Purge(PurgeOpt::All)
    } else if "-"@.is_prefix_of(arg) {
        Opt::Unknown
    } else {
        Opt::File
    }
}

/// How many keys tell frames under `id` apart: a description and a language
/// for comments and lyrics, a description for user-defined text and links,
/// none for the others.
pub open spec fn key_count(id: Seq<char>) -> nat {
    if has_lang(kind_of_id(id)) {
        2
    } else if is_structured(kind_of_id(id)) {
        1
    } else {
        0
    }
}

/// How many arguments the option `opt`, spelled `arg`, takes after it.
pub open spec fn arity(opt: Opt, arg: Seq<char>) -> nat {
    match opt {
        Opt::FrameSep | Opt::FileSep => 1,
        Opt::Print | Opt::Delete => key_count(slice(arg, 2, 6)),
        Opt::Write => key_count(slice(arg, 2, 6)) + 1,
        _ => 0,
    }
}

/// The name by which an option is called when its arguments are missing.
pub open spec fn shown_name(opt: Opt, arg: Seq<char>) -> Seq<char> {
    match opt {
        Opt::FrameSep => "--frame-sep"@,
        Opt::FileSep => "--file-sep"@,
        Opt::Delete => slice(arg, 0, 6),
        _ => arg,
    }
}

/// The frame that a frame option spelled `arg` names, with the keys taken
/// from `params` and the payload `payload`.
pub open spec fn named_frame(
    arg: Seq<char>,
    params: Seq<Seq<char>>,
    payload: Seq<char>,
) -> FrameView {
    let id = slice(arg, 2, 6);
    make_frame(
        id,
        if key_count(id) >= 1 {
            params[0]
        } else {
            Seq::empty()
        },
        if key_count(id) >= 2 {
            params[1]
        } else {
            Seq::empty()
        },
        payload,
    )
}

/// What the command line asks for once the option `opt`, spelled `arg` and
/// followed by `params`, is added to what `cli` asks for.
pub open spec fn with_option(
    cli: CliView,
    opt: Opt,
    arg: Seq<char>,
    params: Seq<Seq<char>>,
) -> CliView {
    match opt {
        Opt::Help => CliView { help: true, ..cli },
        Opt::Version => CliView { version: true, ..cli },
        Opt::ListFrames => CliView { list_frames: true, ..cli },
        Opt::FrameSep => CliView { frame_sep: Some(params[0]), ..cli },
        Opt::FrameSepInline => CliView { frame_sep: Some(slice(arg, 2, arg.len() as int)), ..cli },
        Opt::FileSep => CliView { file_sep: Some(params[0]), ..cli },
        Opt::FileSepInline => CliView { file_sep: Some(slice(arg, 2, arg.len() as int)), ..cli },
        Opt::FrameSepNull => CliView { frame_sep_null: true, ..cli },
        Opt::FileSepNull => CliView { file_sep_null: true, ..cli },
        Opt::Print => CliView {
            actions: cli.actions.push(ActionView::Print(named_frame(arg, params, Seq::empty()))),
            ..cli
        },
        Opt::Write => CliView {
            actions: cli.actions.push(
                ActionView::Write(
                    named_frame(arg, params, params[key_count(slice(arg, 2, 6)) as int]),
                ),
            ),
            ..cli
        },
        Opt::Delete => CliView {
            actions: cli.actions.push(ActionView::Delete(named_frame(arg, params, Seq::empty()))),
            ..cli
        },
        Opt::Convert(c) => CliView { actions: cli.actions.push(ActionView::Convert(c)), ..cli },
        Opt::Purge(p) => CliView { actions: cli.actions.push(ActionView::Purge(p)), ..cli },
        Opt::EndOfOptions | Opt::Unknown | Opt::File => cli,
    }
}

/// A command line that asks for nothing.
pub open spec fn nothing_asked() -> CliView {
    CliView {
        help: false,
        version: false,
        list_frames: false,
        frame_sep: None,
        file_sep: None,
        frame_sep_null: false,
        file_sep_null: false,
        actions: Seq::empty(),
        files: Seq::empty(),
    }
}

/// What the arguments from position `i` on ask for, added to what `cli`
/// asks for. Options are read one after the other, each with the arguments
/// it takes. The first argument that is no option, or what follows `--`,
/// begins the files, which reach to the end.
pub open spec fn parse_from(args: Seq<Seq<char>>, i: int, cli: CliView) -> Result<
    CliView,
    CliErrorView,
>
    decreases args.len() - i,
{
    if i < 0 || i >= args.len() {
        Ok(cli)
    } else {
        let arg = args[i];
        let opt = option_of(arg);
        let n = arity(opt, arg) as int;
        if opt == Opt::File {
            Ok(CliView { files: args.skip(i), ..cli })
        } else if opt == Opt::EndOfOptions {
            Ok(CliView { files: args.skip(i + 1), ..cli })
        } else if opt == Opt::Unknown {
            Err(CliErrorView::UnknownOption { option: arg })
        } else if i + n >= args.len() {
            Err(
                CliErrorView::MissingArguments { option: shown_name(opt, arg), expected: n as nat },
            )
        } else {
            parse_from(
                args,
                i + 1 + n,
                with_option(cli, opt, arg, args.subrange(i + 1, i + 1 + n)),
            )
        }
    }
}

/// What a command line asks for. The first of `args` is the name under
/// which the program was called, and is passed over.
pub open spec fn parse(args: Seq<Seq<char>>) -> Result<CliView, CliErrorView> {
    parse_from(args, 1, nothing_asked())
}

/// Returns whether `c` can stand in a frame identifier.
pub fn id_char(c: char) -> (b: bool)
    ensures
        b == is_id_char(c),
{
    (c >= 'A' && c <= 'Z') || (c >= '0' && c <= '9')
}

/// Returns whether the four characters of `arg` from position 2 on can all
/// stand in a frame identifier.
fn frame_named(arg: &str) -> (b: bool)
    ensures
        b == names_frame(arg@),
{
    arg.unicode_len() >= 6 && id_char(arg.get_char(2)) && id_char(arg.get_char(3)) && id_char(
        arg.get_char(4),
    ) && id_char(arg.get_char(5))
}

/// Returns how many keys tell frames under `id` apart.
pub fn keys_of(id: &str) -> (n: usize)
    ensures
        n == key_count(id@),
{
    let kind = Kind::of_id(id);
    if kind.has_lang() {
        2
    } else if kind.structured() {
        1
    } else {
        0
    }
}

impl Cli {
    /// Returns whether `arg` asks for a print.
    pub fn is_getter_arg(arg: &str) -> (b: bool)
        ensures
            b == is_getter_arg(arg@),
    {
        arg.unicode_len() == 6 && starts_with(arg, "--") && frame_named(arg)
    }

    /// Returns whether `arg` asks for a frame to be written.
    pub fn is_setter_arg(arg: &str) -> (b: bool)
        ensures
            b == is_setter_arg(arg@),
    {
        arg.unicode_len() == 7 && starts_with(arg, "--") && arg.get_char(6) == '=' && writable_id(
            substring(arg, 2, 6),
        )
    }

    /// Returns whether `arg` asks for a delete.
    pub fn is_delete_arg(arg: &str) -> (b: bool)
        ensures
            b == is_delete_arg(arg@),
    {
        arg.unicode_len() == 7 && starts_with(arg, "--") && arg.get_char(6) == '-' && frame_named(
            arg,
        )
    }
}

/// Returns what the argument `arg` is.
pub fn classify(arg: &str) -> (opt: Opt)
    ensures
        opt == option_of(arg@),
{
    if str_eq(arg, "-h") || str_eq(arg, "--help") {
        Opt::Help
    } else if str_eq(arg, "-V") || str_eq(arg, "--version") {
        Opt::Version
    } else if str_eq(arg, "-L") || str_eq(arg, "--list-frames") {
        Opt::ListFrames
    } else if str_eq(arg, "-d") || str_eq(arg, "--frame-sep") {
        Opt::FrameSep
    } else if starts_with(arg, "-d") {
        Opt::FrameSepInline
    } else if str_eq(arg, "-D") || str_eq(arg, "--file-sep") {
        Opt::FileSep
    } else if starts_with(arg, "-D") {
        Opt::FileSepInline
    } else if str_eq(arg, "-0d") || str_eq(arg, "--frame-sep-null") {
        Opt::FrameSepNull
    } else if str_eq(arg, "-0D") || str_eq(arg, "--file-sep-null") {
        Opt::FileSepNull
    } else if str_eq(arg, "--") {
        Opt::EndOfOptions
    } else if Cli::is_getter_arg(arg) {
        Opt::Print
    } else if Cli::is_setter_arg(arg) {
        Opt::Write
    } else if Cli::is_delete_arg(arg) {
        Opt::Delete
    } else if str_eq(arg, "--id3v2.2") {
        Opt::Convert(ConvertOpt::Id3v22)
    } else if str_eq(arg, "--id3v2.3") {
        Opt::Convert(ConvertOpt::Id3v23)
    } else if str_eq(arg, "--id3v2.4") {
        Opt::Convert(ConvertOpt::Id3v24)
    } else if str_eq(arg, "--force-id3v2.2") {
        Opt::Convert(ConvertOpt::Id3v22Force)
    } else if str_eq(arg, "--force-id3v2.3") {
        Opt::Convert(ConvertOpt::Id3v23Force)
    } else if str_eq(arg, "--force-id3v2.4") {
        Opt::Convert(ConvertOpt::Id3v24Force)
    } else if str_eq(arg, "--purge-id3v2.2") {
        Opt::Purge(PurgeOpt::Id3v22)
    } else if str_eq(arg, "--purge-id3v2.3") {
        Opt::Purge(PurgeOpt::Id3v23)
    } else if str_eq(arg, "--purge-id3v2.4") {
        Opt::Purge(PurgeOpt::Id3v24)
    } else if str_eq(arg, "--purge-all") {
        Opt::Purge(PurgeOpt::All)
    } else if starts_with(arg, "-") {
        Opt::Unknown
    } else {
        Opt::File
    }
}

/// Returns how many arguments the option `opt`, spelled `arg`, takes after
/// it.
pub fn arity_of(opt: Opt, arg: &str) -> (n: usize)
    ensures
        n == arity(opt, arg@),
        n <= 3,
{
    match opt {
        Opt::FrameSep | Opt::FileSep => 1,
        Opt::Print | Opt::Delete => keys_of(substring(arg, 2, 6)),
        Opt::Write => keys_of(substring(arg, 2, 6)) + 1,
        _ => 0,
    }
}

/// Returns the name by which an option is called when its arguments are
/// missing.
fn name_shown(opt: Opt, arg: &str) -> (s: String)
    ensures
        s@ == shown_name(opt, arg@),
{
    match opt {
        Opt::FrameSep => String::from_str("--frame-sep"),
        Opt::FileSep => String::from_str("--file-sep"),
        Opt::Delete => String::from_str(substring(arg, 0, 6)),
        _ => String::from_str(arg),
    }
}

/// Returns the frame that a frame option spelled `arg` names, with the keys
/// taken from the arguments behind position `i` and the payload `payload`.
fn frame_named_by(arg: &str, args: &Vec<String>, i: usize, payload: &str) -> (f: Frame)
    requires
        i + key_count(slice(arg@, 2, 6)) < args.len(),
    ensures
        f@ == named_frame(
            arg@,
            strings_view(args@).subrange(i + 1, i + 1 + key_count(slice(arg@, 2, 6))),
            payload@,
        ),
{
    proof {
        reveal_strlit("");
    }
    let id = substring(arg, 2, 6);
    let keys: usize = keys_of(id);
    let description = if keys >= 1 {
        args[i + 1].as_str()
    } else {
        ""
    };
    let lang = if keys >= 2 {
        args[i + 2].as_str()
    } else {
        ""
    };
    Frame::build(id, description, lang, payload)
}

/// Returns copies of the arguments from position `from` on.
fn rest_of(args: &Vec<String>, from: usize) -> (files: Vec<String>)
    requires
        from <= args.len(),
    ensures
        strings_view(files@) == strings_view(args@).skip(from as int),
{
    let mut files: Vec<String> = Vec::new();
    let mut k: usize = from;
    while k < args.len()
        invariant
            from <= k <= args.len(),
            files.len() == k - from,
            strings_view(files@) == strings_view(args@).subrange(from as int, k as int),
        decreases args.len() - k,
    {
        let ghost before = files@;
        files.push(args[k].clone());
        k += 1;
        assert(strings_view(files@) =~= strings_view(before).push(args[k - 1]@));
        assert(strings_view(files@) =~= strings_view(args@).subrange(from as int, k as int));
    }
    assert(strings_view(args@).subrange(from as int, args.len() as int) =~= strings_view(
        args@,
    ).skip(from as int));
    files
}

impl Cli {
    /// A command line that asks for nothing.
    pub fn empty() -> (cli: Cli)
        ensures
            cli@ == nothing_asked(),
    {
        let cli = Cli {
            help: false,
            version: false,
            list_frames: false,
            frame_sep: None,
            file_sep: None,
            frame_sep_null: false,
            file_sep_null: false,
            actions: Vec::new(),
            files: Vec::new(),
        };
        assert(cli@.actions =~= Seq::empty());
        assert(cli@.files =~= Seq::empty());
        cli
    }

    /// Adds an action to those asked for.
    fn add(&mut self, action: Action)
        ensures
            final(self)@ == (CliView { actions: old(self)@.actions.push(action@), ..old(self)@ }),
    {
        self.actions.push(action);
        assert(self@.actions =~= old(self)@.actions.push(action@));
    }

    /// Reads the command line `args`, of which the first is the name under
    /// which the program was called.
    ///
    /// Fails with `UnknownOption` at the first argument that begins with a
    /// hyphen and is no option, and with `MissingArguments` at the first
    /// option that is not followed by as many arguments as it takes.
    pub fn parse_args(args: &Vec<String>) -> (r: Result<Cli, CliError>)
        ensures
            match r {
                Ok(cli) => parse(strings_view(args@)) == Ok::<CliView, CliErrorView>(cli@),
                Err(e) => parse(strings_view(args@)) == Err::<CliView, CliErrorView>(e@),
            },
    {
        let mut cli = Cli::empty();
        let ghost all = strings_view(args@);
        let mut i: usize = 1;
        if args.len() == 0 {
            return Ok(cli);
        }
        while i < args.len()
            invariant
                1 <= i <= args.len(),
                all == strings_view(args@),
                parse_from(all, i as int, cli@) == parse(all),
            decreases args.len() - i,
        {
            let arg = args[i].as_str();
            assert(arg@ == all[i as int]);
            let opt = classify(arg);
            let n: usize = arity_of(opt, arg);
            match opt {
                Opt::File => {
                    cli.files = rest_of(args, i);
                    return Ok(cli);
                },
                Opt::EndOfOptions => {
                    cli.files = rest_of(args, i + 1);
                    return Ok(cli);
                },
                Opt::Unknown => {
                    return Err(CliError::UnknownOption { option: String::from_str(arg) });
                },
                _ => {},
            }
            if n >= args.len() - i {
                return Err(
                    CliError::MissingArguments { option: name_shown(opt, arg), expected: n },
                );
            }
            let ghost params = all.subrange(i + 1, i + 1 + n);
            let ghost before = cli@;
            match opt {
                Opt::Help => {
                    cli.help = true;
                },
                Opt::Version => {
                    cli.version = true;
                },
                Opt::ListFrames => {
                    cli.list_frames = true;
                },
                Opt::FrameSep => {
                    cli.frame_sep = Some(args[i + 1].clone());
                    assert(params[0] == args[i + 1]@);
                },
                Opt::FrameSepInline => {
                    cli.frame_sep = Some(String::from_str(substring(arg, 2, arg.unicode_len())));
                },
                Opt::FileSep => {
                    cli.file_sep = Some(args[i + 1].clone());
                    assert(params[0] == args[i + 1]@);
                },
                Opt::FileSepInline => {
                    cli.file_sep = Some(String::from_str(substring(arg, 2, arg.unicode_len())));
                },
                Opt::FrameSepNull => {
                    cli.frame_sep_null = true;
                },
                Opt::FileSepNull => {
                    cli.file_sep_null = true;
                },
                Opt::Print => {
                    proof {
                        reveal_strlit("");
                        assert(""@ =~= Seq::<char>::empty());
                    }
                    cli.add(Action::Print(frame_named_by(arg, args, i, "")));
                },
                Opt::Write => {
                    cli.add(Action::Write(frame_named_by(arg, args, i, args[i + n].as_str())));
                    assert(params[n - 1] == args[i + n]@);
                },
                Opt::Delete => {
                    proof {
                        reveal_strlit("");
                        assert(""@ =~= Seq::<char>::empty());
                    }
                    cli.add(Action::Delete(frame_named_by(arg, args, i, "")));
                },
                Opt::Convert(c) => {
                    cli.add(Action::Convert(c));
                },
                Opt::Purge(p) => {
                    cli.add(Action::Purge(p));
                },
                _ => {},
            }
            assert(cli@ == with_option(before, opt, arg@, params));
            i += 1 + n;
        }
        Ok(cli)
    }
}

/// The help text: how the program is called and what its options do.
pub const USAGE: &'static str =
    "Usage:  rsid3 [OPTION] [--] FILE...\n\nReads or writes ID3v2 tags in mp3 files.\nSupported standards: ID3v2.2, ID3v2.3, ID3v2.4.\n\nOptions:\n  -h, --help               Show this help and exit.\n  -V, --version            Print version information.\n  -L, --list-frames        List all supported frames.\n  -d SEP, --frame-sep SEP  Separate printed frames with SEP (default: \\n).\n  -D SEP, --file-sep SEP   Separate printed files with SEP (default: \\n).\n  -0d, --frame-sep-null    Separate printed frames with the null byte.\n  -0D, --file-sep-null     Separate printed files with the null byte.\n\n  --FRAME                  Print the value of FRAME.\n  --FRAME DESC             Print the value of FRAME (TXXX, WXXX).\n  --FRAME DESC LANG        Print the value of FRAME (COMM, USLT).\n  --FRAME= TEXT            Set the value of FRAME.\n  --FRAME= DESC TEXT       Set the value of FRAME (TXXX, WXXX).\n  --FRAME= DESC LANG TEXT  Set the value of FRAME (COMM, USLT).\n  --FRAME-                 Delete FRAME.\n  --FRAME- DESC            Delete FRAME (TXXX, WXXX).\n  --FRAME- DESC LANG       Delete FRAME (COMM, USLT).\n\n  --id3v2.2                Convert tags to ID3v2.2 (lossless; may fail).\n  --id3v2.3                Convert tags to ID3v2.3 (lossless; may fail).\n  --id3v2.4                Convert tags to ID3v2.4 (lossless; may fail).\n  --force-id3v2.2          Convert tags to ID3v2.2 (omit non-convertible frames; always succeeds).\n  --force-id3v2.3          Convert tags to ID3v2.3 (omit non-convertible frames; always succeeds).\n  --force-id3v2.4          Convert tags to ID3v2.4 (omit non-convertible frames; always succeeds).\n  --purge-id3v2.2          Purge ID3v2.2 tags, if present.\n  --purge-id3v2.3          Purge ID3v2.3 tags, if present.\n  --purge-id3v2.4          Purge ID3v2.4 tags, if present.\n  --purge-all              Purge all ID3v2 tags, if present.\n\nIf the value of LANG is irrelevant when printing a frame, 'first'\ncan be passed instead, in which case the first frame with a matching\nDESC is printed.\n\nIf no print/set/delete/convert/purge options are passed, all frames are printed.\nAny number of print/set/delete/convert/purge options can be passed in any order.\nThe options are executed in the same order as they were passed in. This allows\nfor chaining many operations under a single command.\nIf no convert options are passed, rsid3 keeps the existing tag versions,\nor defaults to ID3v2.4 when creating new tags from scratch.\n";

/// What a run is to do.
#[derive(Debug, PartialEq, Eq)]
pub enum Plan {
    /// Show the help text; the run succeeds.
    Help,
    /// Show the version; the run succeeds.
    Version,
    /// Show the catalogue of frames; the run succeeds.
    ListFrames,
    /// Apply the actions to each file, printing with these separators.
    Edit(Separators),
    /// List all frames of each file.
    Show,
    /// Nothing was asked for: show the help text; the run fails.
    Usage,
}

/// The mathematical value of a [`Plan`].
pub enum PlanView {
    Help,
    Version,
    ListFrames,
    Edit(SeparatorsView),
    Show,
    Usage,
}

impl View for Plan {
    type V = PlanView;

    open spec fn view(&self) -> PlanView {
        match self {
            Plan::Help => PlanView::Help,
            Plan::Version => PlanView::Version,
            Plan::ListFrames => PlanView::ListFrames,
            Plan::Edit(s) => PlanView::Edit(s@),
            Plan::Show => PlanView::Show,
            Plan::Usage => PlanView::Usage,
        }
    }
}

/// The separator that is used: the null byte where that was asked for,
/// else the separator given, else a line feed.
pub open spec fn chosen_separator(given: Option<Seq<char>>, null: bool) -> Seq<char> {
    if null {
        "\0"@
    } else {
        match given {
            Some(sep) => sep,
            None => "\n"@,
        }
    }
}

/// What a run is to do for a command line. The options that only show
/// something come first, and nothing else is looked at where one of them
/// is given. A separator given together with the option that asks for the
/// null byte is an error. With actions the run edits; without actions it
/// lists the frames of the files, and with neither it has nothing to do.
pub open spec fn planned(cli: CliView) -> Result<PlanView, CliErrorView> {
    if cli.help {
        Ok(PlanView::Help)
    } else if cli.version {
        Ok(PlanView::Version)
    } else if cli.list_frames {
        Ok(PlanView::ListFrames)
    } else if cli.frame_sep is Some && cli.frame_sep_null {
        Err(CliErrorView::ExclusiveFrameSeparators)
    } else if cli.file_sep is Some && cli.file_sep_null {
        Err(CliErrorView::ExclusiveFileSeparators)
    } else if cli.actions.len() > 0 {
        Ok(
            PlanView::Edit(
                SeparatorsView {
                    frame: chosen_separator(cli.frame_sep, cli.frame_sep_null),
                    file: chosen_separator(cli.file_sep, cli.file_sep_null),
                },
            ),
        )
    } else if cli.files.len() == 0 {
        Ok(PlanView::Usage)
    } else {
        Ok(PlanView::Show)
    }
}

/// The first `n` characters of `s`, or all of `s` where it has fewer.
pub open spec fn prefix(s: Seq<char>, n: int) -> Seq<char> {
    if s.len() <= n {
        s
    } else {
        s.take(n)
    }
}

/// The text that shows the version: the program's name, its version and
/// the first eight characters of the revision it was built from, and below
/// that the time of the build.
pub open spec fn version_text(version: Seq<char>, revision: Seq<char>, built: Seq<char>) -> Seq<
    char,
> {
    "rsid3 "@ + version + "-"@ + prefix(revision, 8) + "\nBuilt on "@ + built + "\n"@
}

/// Returns the separator that is used.
fn choose_separator(given: &Option<String>, null: bool) -> (s: String)
    ensures
        s@ == chosen_separator(option_view(*given), null),
{
    if null {
        String::from_str("\0")
    } else {
        match given {
            Some(sep) => sep.clone(),
            None => String::from_str("\n"),
        }
    }
}

impl Cli {
    /// Returns what the run is to do.
    ///
    /// Fails where a separator was given together with the option that asks
    /// for the null byte, unless an option that only shows something was
    /// given too.
    pub fn plan(&self) -> (r: Result<Plan, CliError>)
        ensures
            match r {
                Ok(p) => planned(self@) == Ok::<PlanView, CliErrorView>(p@),
                Err(e) => planned(self@) == Err::<PlanView, CliErrorView>(e@),
            },
    {
        if self.help {
            Ok(Plan::Help)
        } else if self.version {
            Ok(Plan::Version)
        } else if self.list_frames {
            Ok(Plan::ListFrames)
        } else if self.frame_sep.is_some() && self.frame_sep_null {
            Err(CliError::ExclusiveFrameSeparators)
        } else if self.file_sep.is_some() && self.file_sep_null {
            Err(CliError::ExclusiveFileSeparators)
        } else if self.actions.len() > 0 {
            Ok(
                Plan::Edit(
                    Separators {
                        frame: choose_separator(&self.frame_sep, self.frame_sep_null),
                        file: choose_separator(&self.file_sep, self.file_sep_null),
                    },
                ),
            )
        } else if self.files.len() == 0 {
            Ok(Plan::Usage)
        } else {
            Ok(Plan::Show)
        }
    }

    /// Returns the help text, as it is printed.
    pub fn print_usage() -> (s: String)
        ensures
            s@ == USAGE@,
    {
        String::from_str(USAGE)
    }

    /// Returns the catalogue of frames, as it is printed.
    pub fn print_all_frames() -> (s: String)
        ensures
            s@ == catalogue(),
    {
        catalogue_text()
    }

    /// Returns the text that shows the version, as it is printed, from the
    /// program's version, the revision it was built from and the time of the
    /// build.
    pub fn print_version(version: &str, revision: &str, built: &str) -> (s: String)
        ensures
            s@ == version_text(version@, revision@, built@),
    {
        let mut s = String::from_str("rsid3 ");
        s.append(version);
        s.append("-");
        if revision.unicode_len() <= 8 {
            s.append(revision);
        } else {
            s.append(substring(revision, 0, 8));
        }
        s.append("\nBuilt on ");
        s.append(built);
        s.append("\n");
        s
    }
}

} // verus!
