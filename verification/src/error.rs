//! What can go wrong while a tag is queried or changed.

use vstd::prelude::*;
use vstd::string::*;
use crate::frame::Kind;
use crate::version::Version;

verus! {

/// A failure of one operation on a tag.
#[derive(Debug, PartialEq, Eq)]
pub enum TagError {
    /// No stored frame answers the query; `query` names it in full, such as
    /// `TXXX[desc]` or `COMM[desc](eng)`.
    NotFound { query: String },
    /// The frame under `id` holds content of kind `found`, which is not the
    /// kind that its identifier calls for.
    KindMismatch { id: String, found: Kind },
    /// Frames under `id` cannot be written.
    UnsupportedWrite { id: String },
    /// The frames under `ids` have no counterpart in version `to`.
    IncompatibleFrames { from: Version, to: Version, ids: Vec<String> },
}

/// The mathematical value of a [`TagError`].
pub enum TagErrorView {
    NotFound { query: Seq<char> },
    KindMismatch { id: Seq<char>, found: Kind },
    UnsupportedWrite { id: Seq<char> },
    IncompatibleFrames { from: Version, to: Version, ids: Seq<Seq<char>> },
}

/// The values of a sequence of strings.
pub open spec fn strings_view(v: Seq<String>) -> Seq<Seq<char>> {
    Seq::new(v.len(), |i: int| v[i]@)
}

impl View for TagError {
    type V = TagErrorView;

    open spec fn view(&self) -> TagErrorView {
        match self {
            TagError::NotFound { query } => TagErrorView::NotFound { query: query@ },
            TagError::KindMismatch { id, found } => TagErrorView::KindMismatch {
                id: id@,
                found: *found,
            },
            TagError::UnsupportedWrite { id } => TagErrorView::UnsupportedWrite { id: id@ },
            TagError::IncompatibleFrames { from, to, ids } => TagErrorView::IncompatibleFrames {
                from: *from,
                to: *to,
                ids: strings_view(ids@),
            },
        }
    }
}

/// The strings of `parts` in order, with `sep` between each two.
pub open spec fn join(parts: Seq<Seq<char>>, sep: Seq<char>) -> Seq<char>
    decreases parts.len(),
{
    if parts.len() == 0 {
        Seq::empty()
    } else if parts.len() == 1 {
        parts[0]
    } else {
        join(parts.drop_last(), sep) + sep + parts.last()
    }
}

/// The name of the program, which stands before all that it reports.
pub const PROGRAM: &'static str = "rsid3";

impl TagErrorView {
    /// The line that reports this error: the name of the program, and
    /// behind it the sentence that says what went wrong.
    pub open spec fn report(self) -> Seq<char> {
        PROGRAM@ + ": "@ + self.message()
    }

    /// The sentence that reports this error.
    pub open spec fn message(self) -> Seq<char> {
        match self {
            TagErrorView::NotFound { query } => "Frame not found: "@ + query,
            TagErrorView::KindMismatch { id, found } => "Frame claims to be "@ + id + " but has "@
                + found.name_spec() + " content"@,
            TagErrorView::UnsupportedWrite { id } => "Writing to "@ + id + " is not supported"@,
            TagErrorView::IncompatibleFrames { from, to, ids } => "Cannot convert tag from "@
                + from.name_spec() + " to "@ + to.name_spec() + ": Incompatible frames: "@ + join(
                ids,
                ", "@,
            ),
        }
    }
}

/// Joins `parts` with `sep` between each two.
pub fn join_strings(parts: &Vec<String>, sep: &str) -> (s: String)
    ensures
        s@ == join(strings_view(parts@), sep@),
{
    let mut out = String::new();
    let mut i: usize = 0;
    while i < parts.len()
        invariant
            0 <= i <= parts.len(),
            out@ == join(strings_view(parts@).take(i as int), sep@),
        decreases parts.len() - i,
    {
        proof {
            let all = strings_view(parts@);
            assert(all.take(i + 1).drop_last() =~= all.take(i as int));
            assert(all.take(i + 1).last() == parts[i as int]@);
            if i == 0 {
                assert(all.take(0).len() == 0);
            }
        }
        if i > 0 {
            out.append(sep);
        }
        out.append(parts[i].as_str());
        i += 1;
    }
    proof {
        assert(strings_view(parts@).take(parts.len() as int) =~= strings_view(parts@));
    }
    out
}

impl TagError {
    /// Returns the line that reports this error, without a line feed.
    pub fn report(&self) -> (s: String)
        ensures
            s@ == self@.report(),
    {
        let mut s = String::from_str(PROGRAM);
        s.append(": ");
        s.append(self.message().as_str());
        s
    }

    /// Returns the sentence that reports this error.
    pub fn message(&self) -> (s: String)
        ensures
            s@ == self@.message(),
    {
        match self {
            TagError::NotFound { query } => {
                let mut s = String::from_str("Frame not found: ");
                s.append(query.as_str());
                s
            },
            TagError::KindMismatch { id, found } => {
                let mut s = String::from_str("Frame claims to be ");
                s.append(id.as_str());
                s.append(" but has ");
                s.append(found.name());
                s.append(" content");
                s
            },
            TagError::UnsupportedWrite { id } => {
                let mut s = String::from_str("Writing to ");
                s.append(id.as_str());
                s.append(" is not supported");
                s
            },
            TagError::IncompatibleFrames { from, to, ids } => {
                let mut s = String::from_str("Cannot convert tag from ");
                s.append(from.name());
                s.append(" to ");
                s.append(to.name());
                s.append(": Incompatible frames: ");
                let list = join_strings(ids, ", ");
                s.append(list.as_str());
                s
            },
        }
    }
}

} // verus!
