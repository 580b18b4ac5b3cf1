//! The catalogue of frames: which identifiers can be written, which can
//! only be read, and what each of them stands for.

use vstd::prelude::*;
use vstd::string::*;
use crate::text::str_eq;

verus! {

/// The frames that can be read and written, each with what it stands for.
pub const WRITABLE_FRAMES: [(&'static str, &'static str); 71] = [
    ("COMM", "User comment (DESC, LANG, TEXT)"),
    ("TALB", "Album"),
    ("TBPM", "Beats per minute"),
    ("TCAT", "iTunes podcast category"),
    ("TCMP", "iTunes compilation flag"),
    ("TCOM", "Composer"),
    ("TCON", "Content type (genre)"),
    ("TCOP", "Copyright"),
    ("TDAT", "Date of recording (DDMM)"),
    ("TDEN", "Encoding time"),
    ("TDES", "iTunes podcast description"),
    ("TDLY", "Audio delay (ms)"),
    ("TDOR", "Original release time"),
    ("TDRC", "Recording time"),
    ("TDRL", "Release time"),
    ("TDTG", "Tagging time"),
    ("TENC", "Encoder"),
    ("TEXT", "Lyricist"),
    ("TFLT", "File type"),
    ("TGID", "iTunes podcast identifier"),
    ("TIME", "Time of recording (HHMM)"),
    ("TIPL", "Involved people list"),
    ("TIT1", "Content group description"),
    ("TIT2", "Title"),
    ("TIT3", "Subtitle/description refinement"),
    ("TKEY", "Starting key"),
    ("TKWD", "iTunes podcast keywords"),
    ("TLAN", "Audio languages"),
    ("TLEN", "Audio length (ms)"),
    ("TMCL", "Musicians credits list"),
    ("TMED", "Source media type"),
    ("TMOO", "Mood"),
    ("TOAL", "Original album"),
    ("TOFN", "Original filename"),
    ("TOLY", "Original lyricist"),
    ("TOPE", "Original artist/performer"),
    ("TORY", "Original release year"),
    ("TOWN", "Owner/Licensee"),
    ("TPE1", "Lead artist/performer/soloist/group"),
    ("TPE2", "Band/Orchestra/Accompaniment"),
    ("TPE3", "Conductor"),
    ("TPE4", "Interpreter/Remixer/Modifier"),
    ("TPOS", "Part of set"),
    ("TPRO", "Produced"),
    ("TPUB", "Publisher"),
    ("TRCK", "Track number"),
    ("TRDA", "Recording dates"),
    ("TRSN", "Internet radio station name"),
    ("TRSO", "Internet radio station owner"),
    ("TSIZ", "Size of audio data (bytes)"),
    ("TSO2", "iTunes album artist sort"),
    ("TSOA", "Album sort order key"),
    ("TSOC", "iTunes composer sort"),
    ("TSOP", "Performer sort order key"),
    ("TSOT", "Title sort order key"),
    ("TSRC", "International Standard Recording Code (ISRC)"),
    ("TSSE", "Encoder settings"),
    ("TSST", "Set subtitle"),
    ("TXXX", "User-defined text data (DESC, TEXT)"),
    ("TYER", "Year of recording"),
    ("USLT", "Unsynchronised lyrics/text transcription (DESC, LANG, TEXT)"),
    ("WCOM", "Commercial information"),
    ("WCOP", "Copyright information"),
    ("WFED", "iTunes podcast feed"),
    ("WOAF", "Official file information"),
    ("WOAR", "Official artist/performer information"),
    ("WOAS", "Official source information"),
    ("WORS", "Official internet radio information"),
    ("WPAY", "Payment information"),
    ("WPUB", "Official publisher information"),
    ("WXXX", "User-defined URL data (DESC, URL)"),
];

/// The frames that can only be read, each with what it stands for.
pub const READ_ONLY_FRAMES: [(&'static str, &'static str); 34] = [
    ("AENC", "Audio encryption"),
    ("APIC", "Attached (or linked) picture"),
    ("ASPI", "Audio seek point index"),
    ("CHAP", "Chapter"),
    ("COMR", "Commercial frame"),
    ("CTOC", "Table of contents"),
    ("ENCR", "Encryption method registration"),
    ("EQU2", "Equalization 2"),
    ("ETCO", "Event timing codes"),
    ("GEOB", "General encapsulated object"),
    ("GRID", "Group identification registration"),
    ("GRP1", "iTunes grouping"),
    ("IPLS", "Involved people list"),
    ("LINK", "Linked information"),
    ("MCDI", "Binary dump of CD's TOC"),
    ("MLLT", "MPEG location lookup table"),
    ("MVIN", "iTunes movement number/count"),
    ("MVNM", "iTunes movement name"),
    ("OWNE", "Ownership frame"),
    ("PCNT", "Play counter"),
    ("PCST", "iTunes podcast flag"),
    ("POPM", "Popularimeter"),
    ("POSS", "Position synchronisation frame"),
    ("PRIV", "Private frame"),
    ("RBUF", "Recommended buffer size"),
    ("RVA2", "Relative volume adjustment 2"),
    ("RVAD", "Relative volume adjustment"),
    ("RVRB", "Reverb"),
    ("SEEK", "Seek frame"),
    ("SIGN", "Signature frame"),
    ("SYLT", "Synchronised lyrics/text"),
    ("SYTC", "Synchronised tempo codes"),
    ("UFID", "Unique file identifier"),
    ("USER", "Terms of use"),
];

/// Whether `id` is in the catalogue as a frame that can be written.
pub open spec fn is_writable_id(id: Seq<char>) -> bool {
    exists|i: int| 0 <= i < WRITABLE_FRAMES.len() && (#[trigger] WRITABLE_FRAMES[i]).0@ == id
}

/// Returns whether `id` is in the catalogue as a frame that can be written.
pub fn writable_id(id: &str) -> (b: bool)
    ensures
        b == is_writable_id(id@),
{
    let mut i: usize = 0;
    while i < WRITABLE_FRAMES.len()
        invariant
            0 <= i <= WRITABLE_FRAMES.len(),
            forall|j: int| 0 <= j < i ==> (#[trigger] WRITABLE_FRAMES[j]).0@ != id@,
        decreases WRITABLE_FRAMES.len() - i,
    {
        if str_eq(WRITABLE_FRAMES[i].0, id) {
            return true;
        }
        i += 1;
    }
    false
}

/// The line of the catalogue for one frame: the identifier, a tab, what
/// the frame stands for, and a line feed.
pub open spec fn catalogue_line(entry: (&'static str, &'static str)) -> Seq<char> {
    entry.0@ + "\t"@ + entry.1@ + "\n"@
}

/// The lines of the entries, one after the other.
pub open spec fn catalogue_lines(entries: Seq<(&'static str, &'static str)>) -> Seq<char> {
    entries.map_values(|entry: (&'static str, &'static str)| catalogue_line(entry)).flatten()
}

/// The catalogue as it is shown: the frames that can be written under one
/// heading, an empty line, and the frames that can only be read under
/// another.
pub open spec fn catalogue() -> Seq<char> {
    "Read-write frames:\n"@ + catalogue_lines(WRITABLE_FRAMES@)
        + "\nRead-only frames (rudimentary support):\n"@ + catalogue_lines(READ_ONLY_FRAMES@)
}

/// Appends the line of one entry of the catalogue.
fn append_line(out: &mut String, entry: (&'static str, &'static str))
    ensures
        final(out)@ == old(out)@ + catalogue_line(entry),
{
    out.append(entry.0);
    out.append("\t");
    out.append(entry.1);
    out.append("\n");
}

/// Appends the lines of the entries of one part of the catalogue.
fn append_lines<const N: usize>(out: &mut String, entries: &[(&'static str, &'static str); N])
    ensures
        final(out)@ == old(out)@ + catalogue_lines(entries@),
{
    let ghost line = |entry: (&'static str, &'static str)| catalogue_line(entry);
    let mut i: usize = 0;
    proof {
        assert(entries@.take(0).map_values(line) =~= Seq::<Seq<char>>::empty());
        assert(out@ =~= old(out)@ + entries@.take(0).map_values(line).flatten());
    }
    while i < N
        invariant
            0 <= i <= N,
            N == entries@.len(),
            line == |entry: (&'static str, &'static str)| catalogue_line(entry),
            out@ == old(out)@ + entries@.take(i as int).map_values(line).flatten(),
        decreases N - i,
    {
        let ghost before = entries@.take(i as int).map_values(line);
        append_line(out, entries[i]);
        proof {
            assert(entries@.take(i + 1) =~= entries@.take(i as int).push(entries@[i as int]));
            entries@.take(i as int).lemma_push_map_commute(line, entries@[i as int]);
            before.lemma_flatten_push(line(entries@[i as int]));
            assert(out@ =~= old(out)@ + entries@.take(i + 1).map_values(line).flatten());
        }
        i += 1;
    }
    proof {
        assert(entries@.take(N as int) =~= entries@);
    }
}

/// Returns the catalogue as it is shown.
pub fn catalogue_text() -> (s: String)
    ensures
        s@ == catalogue(),
{
    let mut s = String::from_str("Read-write frames:\n");
    append_lines(&mut s, &WRITABLE_FRAMES);
    s.append("\nRead-only frames (rudimentary support):\n");
    append_lines(&mut s, &READ_ONLY_FRAMES);
    s
}

} // verus!
