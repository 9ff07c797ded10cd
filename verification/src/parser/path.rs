//! A qualified path found in the source that is to be shortened.
use vstd::prelude::*;

use crate::text::{chars_last_piece, chars_of, colons, last_piece};

verus! {

/// A position in the source: 1-based line, 0-based column counted in characters.
#[derive(Clone, Copy, Debug, PartialEq, Eq)]
pub struct LineColumn {
    pub line: usize,
    pub column: usize,
}

/// Where a qualified path to shorten stands, what it reads, what it becomes
/// and what has to be imported for that.
pub struct QualifiedPath {
    /// The path as written, such as `wbase::time::now_secs` or `::std::io::Error`.
    pub original: String,
    /// The shortened text that replaces it, such as `now_secs` or `Error`.
    pub replacement: String,
    /// The path to import at the head of the module, such as `std::io::Error`.
    pub import: String,
    /// The names of the path's segments.
    pub segments: Vec<String>,
    /// The start of the path in the source.
    pub span: LineColumn,
}

/// The abstract value of a qualified path: original, replacement, import,
/// segments and start position (line, column).
pub type PathView = (Seq<char>, Seq<char>, Seq<char>, Seq<Seq<char>>, (usize, usize));

impl View for QualifiedPath {
    type V = PathView;

    open spec fn view(&self) -> PathView {
        (
            self.original@,
            self.replacement@,
            self.import@,
            self.segments.deep_view(),
            (self.span.line, self.span.column),
        )
    }
}

/// The last segment, or the empty text when there is none.
pub open spec fn last_ident_of(segs: Seq<Seq<char>>) -> Seq<char> {
    if segs.len() > 0 {
        segs.last()
    } else {
        Seq::empty()
    }
}

/// Does the text start with an ASCII capital letter?
pub open spec fn upper_initial(s: Seq<char>) -> bool {
    s.len() > 0 && 'A' <= s[0] <= 'Z'
}

/// The name of the type the path is about: the second-to-last segment when
/// it starts with a capital (`Error::new`, `ErrorKind::Other`), else the last.
pub open spec fn core_ident_of(segs: Seq<Seq<char>>) -> Seq<char> {
    if segs.len() >= 2 && upper_initial(segs[segs.len() - 2]) {
        segs[segs.len() - 2]
    } else {
        last_ident_of(segs)
    }
}

/// Does the text start with an ASCII capital letter?
pub fn has_upper_initial(s: &[char]) -> (r: bool)
    ensures
        r == upper_initial(s@),
{
    s.len() > 0 && 'A' <= s[0] && s[0] <= 'Z'
}

impl QualifiedPath {
    /// A copy of this path.
    pub fn duplicate(&self) -> (r: QualifiedPath)
        ensures
            r@ == self@,
    {
        QualifiedPath {
            original: self.original.clone(),
            replacement: self.replacement.clone(),
            import: self.import.clone(),
            segments: crate::sets::copy_strings(&self.segments),
            span: self.span,
        }
    }

    /// The last segment of the path, or the empty text when it has none.
    pub fn last_ident(&self) -> (r: &str)
        ensures
            r@ == last_ident_of(self.segments.deep_view()),
    {
        let n = self.segments.len();
        if n > 0 {
            self.segments[n - 1].as_str()
        } else {
            proof {
                reveal_strlit("");
            }
            ""
        }
    }

    /// The last name of the import, after its last `::` (`std::io::Error` gives `Error`).
    pub fn import_tail(&self) -> (r: String)
        ensures
            r@ == last_piece(self.import@, colons()),
    {
        let imp = chars_of(self.import.as_str());
        let sep = chars_of("::");
        proof {
            reveal_strlit("::");
            assert(sep@ =~= colons());
        }
        let tail = chars_last_piece(imp.as_slice(), sep.as_slice());
        crate::text::string_of(tail.as_slice())
    }

    /// The name of the type the path is about: the second-to-last segment when
    /// it starts with a capital letter, else the last segment.
    pub fn core_ident(&self) -> (r: &str)
        ensures
            r@ == core_ident_of(self.segments.deep_view()),
    {
        let total = self.segments.len();
        if total >= 2 {
            let prev = &self.segments[total - 2];
            let pc = chars_of(prev.as_str());
            if has_upper_initial(pc.as_slice()) {
                return prev.as_str();
            }
        }
        self.last_ident()
    }
}

} // verus!
