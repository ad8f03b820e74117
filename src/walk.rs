use vstd::prelude::*;
use crate::args::opt_view;
use crate::config::SearchConfig;
use crate::matcher::{evaluate, reported};
use crate::mime::{guess_mime, mime_of};

verus! {

/// What a directory listing says an entry is.
#[derive(Clone, Copy, PartialEq, Eq, Structural, Debug)]
pub enum EntryKind {
    Directory,
    Symlink,
    /// A file, or an entry whose type could not be read.
    Other,
}

/// Where the walk goes after an entry.
#[derive(Debug)]
pub enum Descent {
    /// Into this directory.
    Into(String),
    /// Into this symlink's own path, if its target turns out to be a directory.
    IfLinkedDir(String),
    /// Nowhere: on to the next sibling.
    Stay,
}

/// The directory that a descent leads to, given whether a symlink's target
/// is a directory.
pub open spec fn settled(d: Descent, target_is_dir: bool) -> Option<Seq<char>> {
    match d {
        Descent::Into(p) => Some(p@),
        Descent::IfLinkedDir(p) => if target_is_dir {
            Some(p@)
        } else {
            None
        },
        Descent::Stay => None,
    }
}

impl Descent {
    /// The directory to list next, once a symlink's target is known.
    /// `target_is_dir` is read only for `IfLinkedDir`: it tells whether the
    /// link resolved and its target is a directory.
    pub fn settle(self, target_is_dir: bool) -> (r: Option<String>)
        ensures
            opt_view(r) == settled(self, target_is_dir),
    {
        match self {
            Descent::Into(p) => Some(p),
            Descent::IfLinkedDir(p) => if target_is_dir {
                Some(p)
            } else {
                None
            },
            Descent::Stay => None,
        }
    }
}

/// The descent owed to an entry of this kind at this path: a directory is
/// entered, a symlink is entered by its own path if it leads to a directory,
/// anything else is not entered.
pub open spec fn descent_for(kind: EntryKind, path: Seq<char>, d: Descent) -> bool {
    match kind {
        EntryKind::Directory => d matches Descent::Into(p) && p@ == path,
        EntryKind::Symlink => d matches Descent::IfLinkedDir(p) && p@ == path,
        EntryKind::Other => d is Stay,
    }
}

/// A directory is entered by its own path. A symlink is entered by its own
/// path, never its target's, and only when its target is a directory; a
/// broken link or a link to anything else is not entered. Nothing else is
/// entered.
pub proof fn law_descent_follows_kind(
    kind: EntryKind,
    path: Seq<char>,
    d: Descent,
    target_is_dir: bool,
)
    requires
        descent_for(kind, path, d),
    ensures
        settled(d, target_is_dir) == match kind {
            EntryKind::Directory => Some(path),
            EntryKind::Symlink => if target_is_dir {
                Some(path)
            } else {
                None
            },
            EntryKind::Other => None,
        },
{
}

/// What to do with one entry that was read.
pub struct Visit {
    /// Its guessed MIME type, empty when unknown.
    pub mime: String,
    /// Whether it is reported as a match.
    pub reported: bool,
    /// Its position in the walk, counting from one.
    pub number: usize,
    /// Where the walk goes next.
    pub descent: Descent,
}

/// The state of one depth-first walk: the paths of the entries read so far,
/// in the order they were read, and how many there are.
pub struct Walk {
    count: usize,
    visited: Ghost<Seq<Seq<char>>>,
}

impl Walk {
    /// The paths of the entries read so far.
    pub closed spec fn visited(&self) -> Seq<Seq<char>> {
        self.visited@
    }

    /// The number of entries read so far.
    pub closed spec fn spec_count(&self) -> nat {
        self.count as nat
    }

    pub closed spec fn wf(&self) -> bool {
        self.count as nat == self.visited@.len()
    }

    pub fn new() -> (r: Walk)
        ensures
            r.wf(),
            r.spec_count() == 0,
            r.visited() == Seq::<Seq<char>>::empty(),
    {
        Walk { count: 0, visited: Ghost(Seq::empty()) }
    }

    /// The number of entries read so far.
    pub fn count(&self) -> (r: usize)
        ensures
            r == self.spec_count(),
    {
        self.count
    }

    /// Takes one entry that was read from a listing. Every such entry is
    /// counted once, whether reported or not; an entry whose read failed is
    /// never passed here and is not counted.
    pub fn visit(&mut self, c: &SearchConfig, name: &str, path: &str, kind: EntryKind) -> (v:
        Visit)
        requires
            old(self).wf(),
            old(self).spec_count() < usize::MAX,
        ensures
            final(self).wf(),
            final(self).visited() == old(self).visited().push(path@),
            final(self).spec_count() == old(self).spec_count() + 1,
            v.number == final(self).spec_count(),
            v.mime@ == mime_of(path@),
            v.reported == reported(*c, name@, mime_of(path@)),
            descent_for(kind, path@, v.descent),
    {
        let mime = guess_mime(path);
        let reported = evaluate(c, name, mime.as_str()).is_match();
        self.count = self.count + 1;
        self.visited = Ghost(self.visited@.push(path@));
        let descent = match kind {
            EntryKind::Directory => Descent::Into(path.to_string()),
            EntryKind::Symlink => Descent::IfLinkedDir(path.to_string()),
            EntryKind::Other => Descent::Stay,
        };
        Visit { mime, reported, number: self.count, descent }
    }
}

/// The counter of a walk equals the number of entries read into it, each
/// read entry counted exactly once.
pub proof fn law_count_is_entries_read(w: Walk)
    requires
        w.wf(),
    ensures
        w.spec_count() == w.visited().len(),
{
}

/// The number of decimal digits of `n`.
pub open spec fn decimal_len(n: nat) -> nat
    decreases n,
{
    if n < 10 {
        1
    } else {
        1 + decimal_len(n / 10)
    }
}

proof fn lemma_decimal_len_bounded(n: nat)
    ensures
        decimal_len(n) >= 1,
        n >= 1 ==> decimal_len(n) <= n,
    decreases n,
{
    if n >= 10 {
        lemma_decimal_len_bounded(n / 10);
    }
}

/// The number of decimal digits of `n`.
pub fn digits(n: usize) -> (r: usize)
    ensures
        r == decimal_len(n as nat),
{
    proof {
        lemma_decimal_len_bounded(n as nat);
    }
    let mut m: usize = n;
    let mut d: usize = 1;
    while m >= 10
        invariant
            1 <= d,
            d + decimal_len(m as nat) == 1 + decimal_len(n as nat),
            decimal_len(n as nat) <= n || n == 0,
            decimal_len(m as nat) >= 1,
        decreases m,
    {
        proof {
            lemma_decimal_len_bounded(m as nat / 10);
        }
        assert(decimal_len(m as nat) >= 2);
        m = m / 10;
        d = d + 1;
    }
    d
}

/// The column where the right-aligned counter starts on a line of `columns`
/// cells: the counter ends at the right edge, or starts at the left edge when
/// it does not fit.
pub fn progress_column(columns: u16, count: usize) -> (r: u16)
    ensures
        r == if columns as nat > decimal_len(count as nat) {
            (columns as nat - decimal_len(count as nat)) as u16
        } else {
            0u16
        },
{
    let d = digits(count);
    if (columns as usize) > d {
        columns - (d as u16)
    } else {
        0
    }
}

} // verus!
