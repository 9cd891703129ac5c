//! The import-graph crawler, as a state machine that a host drives.
//!
//! The host asks for the next action, performs it (fetching text and parsing
//! it, or resolving an import name), and reports the outcome back as an event.
//! Every document reachable from the entry path is fetched exactly once; the
//! first failure ends the crawl.

use vstd::prelude::*;
use crate::format::{format_of, input_format, InputFormat};
use crate::position::{line_col, stop_index, byte_offset, Position, Span, Utf16Cursor, MAX_TEXT_BYTES};
use crate::text::{chars_of, decode_utf8};

verus! {

/// A failure that ends a load.
#[derive(Debug)]
pub enum LoadError {
    /// An import names a path that is not valid UTF-8.
    Encoding { path: Vec<u8> },
    /// A document's text could not be parsed.
    Parse { message: String },
    /// The host could not resolve an import.
    Resolution { message: String },
    /// The host could not supply the text of a resolved path.
    Fetch { message: String },
    /// The root document failed to evaluate.
    Evaluation { message: String },
    /// The evaluated value could not be converted to the output form.
    Serialization { message: String },
}

/// An import found in a document: the path as written, and the byte offsets of
/// its start and end in the importing document's text, when known.
#[derive(Debug)]
pub struct ImportRef {
    pub path: Vec<u8>,
    pub span: Option<(u32, u32)>,
}

/// What the host is asked to do next.
#[derive(Debug)]
pub enum Action {
    /// Fetch the text of `path` and parse it in `format`.
    Fetch { path: String, format: InputFormat },
    /// Resolve the import `unresolved`, found at `span` in document `base`.
    Resolve { unresolved: String, span: Span, base: String },
    /// Every reachable document is known: evaluate the document `root`.
    Evaluate { root: String },
    /// The load failed.
    Abort { error: LoadError },
}

/// Where the crawl stands.
#[derive(Clone, Copy, Debug, PartialEq, Eq, Structural)]
pub enum Phase {
    /// The crawler decides the next action.
    Ready,
    /// The text of the last fetched path is awaited.
    AwaitingText,
    /// The resolved path of the last import is awaited.
    AwaitingPath,
    /// A failure was reported; it is handed out by the next action.
    Failed,
    /// The crawl is over.
    Done,
}

pub open spec fn views(s: Seq<String>) -> Seq<Seq<char>> {
    s.map_values(|x: String| x@)
}

/// The worklist left after popping paths that are already cached, and the
/// uncached path that was popped, if any.
pub open spec fn pop_uncached(worklist: Seq<Seq<char>>, cached: Seq<Seq<char>>) -> (Seq<Seq<char>>, Option<Seq<char>>)
    decreases worklist.len(),
{
    if worklist.len() == 0 {
        (worklist, None)
    } else if cached.contains(worklist.last()) {
        pop_uncached(worklist.drop_last(), cached)
    } else {
        (worklist.drop_last(), Some(worklist.last()))
    }
}

/// A crawl from a document without imports fetches that document alone and
/// then evaluates it.
pub proof fn lemma_single_document(root: Seq<char>)
    ensures
        pop_uncached(seq![root], Seq::empty()) == (Seq::<Seq<char>>::empty(), Some(root)),
        pop_uncached(Seq::empty(), seq![root]) == (Seq::<Seq<char>>::empty(), None::<Seq<char>>),
{
    assert(seq![root].drop_last() =~= Seq::<Seq<char>>::empty());
}

/// A path popped by `pop_uncached` is not cached, so no document is fetched
/// twice.
pub proof fn lemma_popped_uncached(worklist: Seq<Seq<char>>, cached: Seq<Seq<char>>)
    ensures
        pop_uncached(worklist, cached).1 matches Some(p) ==> !cached.contains(p),
        pop_uncached(worklist, cached).0.len() <= worklist.len(),
    decreases worklist.len(),
{
    if worklist.len() > 0 && cached.contains(worklist.last()) {
        lemma_popped_uncached(worklist.drop_last(), cached);
    }
}

/// The cursor index after mapping `span` from cursor index `index` of `text`.
pub open spec fn index_after(text: Seq<char>, index: int, span: Option<(u32, u32)>) -> int {
    match span {
        Some((s, e)) => stop_index(text, stop_index(text, index, s as int), e as int),
        None => index,
    }
}

/// The UTF-16 coordinates of the start and end of `span`, mapped from cursor
/// index `index` of `text`; `(0, 0)` for both when the span is unknown.
pub open spec fn span_coords(text: Seq<char>, index: int, span: Option<(u32, u32)>) -> ((nat, nat), (nat, nat)) {
    match span {
        Some((s, e)) => {
            let k1 = stop_index(text, index, s as int);
            (line_col(text, k1), line_col(text, stop_index(text, k1, e as int)))
        },
        None => ((0, 0), (0, 0)),
    }
}

pub struct Crawler {
    root: String,
    worklist: Vec<String>,
    cache: Vec<String>,
    phase: Phase,
    error: Option<LoadError>,
    base: String,
    imports: Vec<ImportRef>,
    cursor: Option<Utf16Cursor>,
}

impl Crawler {
    /// The entry path of the load.
    pub closed spec fn root(&self) -> Seq<char> {
        self.root@
    }

    /// Resolved paths waiting to be fetched.
    pub closed spec fn worklist(&self) -> Seq<Seq<char>> {
        views(self.worklist@)
    }

    /// Resolved paths of the document cache, in the order they were fetched.
    pub closed spec fn cached(&self) -> Seq<Seq<char>> {
        views(self.cache@)
    }

    pub closed spec fn phase(&self) -> Phase {
        self.phase
    }

    /// The failure that the next action hands out.
    pub closed spec fn failure(&self) -> Option<LoadError> {
        self.error
    }

    /// Resolved path of the document whose imports are being resolved.
    pub closed spec fn base(&self) -> Seq<char> {
        self.base@
    }

    /// Imports of that document not yet resolved, in tree order.
    pub closed spec fn pending(&self) -> Seq<ImportRef> {
        self.imports@
    }

    /// Text of that document.
    pub closed spec fn text(&self) -> Seq<char> {
        match self.cursor {
            Some(c) => c.text(),
            None => Seq::empty(),
        }
    }

    /// Index in that text up to which positions have been mapped.
    pub closed spec fn index(&self) -> int {
        match self.cursor {
            Some(c) => c.index(),
            None => 0,
        }
    }

    pub closed spec fn wf(&self) -> bool {
        &&& self.cached().no_duplicates()
        &&& (self.phase == Phase::Failed <==> self.error is Some)
        &&& (self.imports@.len() > 0 ==> self.cursor is Some)
        &&& (self.cursor matches Some(c) ==> c.wf())
    }

    /// Whether the host should ask for the next action.
    pub fn expects_action(&self) -> (r: bool)
        ensures
            r == (self.phase() == Phase::Ready || self.phase() == Phase::Failed),
    {
        self.phase == Phase::Ready || self.phase == Phase::Failed
    }

    /// A crawl of the documents reachable from `root`.
    pub fn new(root: String) -> (r: Crawler)
        ensures
            r.wf(),
            r.root() == root@,
            r.worklist() == seq![root@],
            r.cached() == Seq::<Seq<char>>::empty(),
            r.pending() == Seq::<ImportRef>::empty(),
            r.phase() == Phase::Ready,
    {
        let mut worklist: Vec<String> = Vec::new();
        worklist.push(root.clone());
        let r = Crawler {
            root,
            worklist,
            cache: Vec::new(),
            phase: Phase::Ready,
            error: None,
            base: String::new(),
            imports: Vec::new(),
            cursor: None,
        };
        assert(r.worklist() =~= seq![r.root()]);
        assert(r.cached() =~= Seq::<Seq<char>>::empty());
        r
    }

    fn is_cached(&self, path: &String) -> (r: bool)
        ensures
            r == self.cached().contains(path@),
    {
        let mut i: usize = 0;
        while i < self.cache.len()
            invariant
                i <= self.cache@.len(),
                forall|j: int| 0 <= j < i ==> self.cache@[j]@ != path@,
            decreases self.cache@.len() - i,
        {
            if self.cache[i] == *path {
                assert(self.cached()[i as int] == path@);
                return true;
            }
            i = i + 1;
        }
        assert(!self.cached().contains(path@)) by {
            if self.cached().contains(path@) {
                let j = choose|j: int| 0 <= j < self.cached().len() && self.cached()[j] == path@;
                assert(self.cache@[j]@ == path@);
            }
        }
        false
    }

    /// Pops the worklist until it yields a path that is not cached.
    fn pop_uncached(&mut self) -> (r: Option<String>)
        ensures
            *final(self) == (Crawler { worklist: final(self).worklist, ..*old(self) }),
            (final(self).worklist(), match r {
                Some(p) => Some(p@),
                None => None,
            }) == pop_uncached(old(self).worklist(), old(self).cached()),
    {
        loop
            invariant
                *self == (Crawler { worklist: self.worklist, ..*old(self) }),
                pop_uncached(self.worklist(), self.cached()) == pop_uncached(
                    old(self).worklist(),
                    old(self).cached(),
                ),
            decreases self.worklist@.len(),
        {
            let ghost w = self.worklist();
            match self.worklist.pop() {
                None => {
                    return None;
                },
                Some(p) => {
                    assert(w.last() == p@);
                    assert(self.worklist() =~= w.drop_last());
                    if !self.is_cached(&p) {
                        return Some(p);
                    }
                },
            }
        }
    }

    /// Decides what the host does next.
    pub fn next_action(&mut self) -> (r: Action)
        requires
            old(self).wf(),
            old(self).phase() == Phase::Ready || old(self).phase() == Phase::Failed,
        ensures
            final(self).wf(),
            final(self).root() == old(self).root(),
            old(self).phase() == Phase::Failed ==> {
                &&& r == (Action::Abort { error: old(self).failure()->0 })
                &&& final(self).phase() == Phase::Done
            },
            old(self).phase() == Phase::Ready && old(self).pending().len() > 0 ==> ({
                let imp = old(self).pending()[0];
                let (start, end) = span_coords(old(self).text(), old(self).index(), imp.span);
                if vstd::utf8::valid_utf8(imp.path@) {
                    &&& (r matches Action::Resolve { unresolved, span, base } && unresolved@
                        == vstd::utf8::decode_utf8(imp.path@) && span.start.coords() == start
                        && span.end.coords() == end && base@ == old(self).base())
                    &&& final(self).phase() == Phase::AwaitingPath
                    &&& final(self).pending() == old(self).pending().drop_first()
                    &&& final(self).text() == old(self).text()
                    &&& final(self).index() == index_after(
                        old(self).text(),
                        old(self).index(),
                        imp.span,
                    )
                    &&& final(self).base() == old(self).base()
                    &&& final(self).worklist() == old(self).worklist()
                    &&& final(self).cached() == old(self).cached()
                } else {
                    &&& r == (Action::Abort { error: LoadError::Encoding { path: imp.path } })
                    &&& final(self).phase() == Phase::Done
                }
            }),
            old(self).phase() == Phase::Ready && old(self).pending().len() == 0 ==> ({
                let (rest, next) = pop_uncached(old(self).worklist(), old(self).cached());
                &&& final(self).worklist() == rest
                &&& final(self).pending().len() == 0
                &&& match next {
                    Some(p) => {
                        &&& (r matches Action::Fetch { path, format } && path@ == p && format
                            == format_of(p))
                        &&& final(self).cached() == old(self).cached().push(p)
                        &&& final(self).base() == p
                        &&& final(self).phase() == Phase::AwaitingText
                    },
                    None => {
                        &&& (r matches Action::Evaluate { root } && root@ == old(self).root())
                        &&& final(self).cached() == old(self).cached()
                        &&& final(self).phase() == Phase::Done
                    },
                }
            }),
    {
        if self.phase == Phase::Failed {
            let e = self.error.take();
            self.phase = Phase::Done;
            match e {
                Some(error) => {
                    return Action::Abort { error };
                },
                None => {
                    proof {
                        assert(false);
                    }
                    return Action::Evaluate { root: self.root.clone() };
                },
            }
        }
        if self.imports.len() > 0 {
            let imp = self.imports.remove(0);
            let mut cursor = match self.cursor.take() {
                Some(c) => c,
                None => {
                    proof {
                        assert(false);
                    }
                    return Action::Evaluate { root: self.root.clone() };
                },
            };
            let span = match imp.span {
                Some((s, e)) => {
                    let start = cursor.advance_to(s);
                    let end = cursor.advance_to(e);
                    Span { start, end }
                },
                None => Span::unknown(),
            };
            self.cursor = Some(cursor);
            match decode_utf8(imp.path.as_slice()) {
                Some(unresolved) => {
                    self.phase = Phase::AwaitingPath;
                    Action::Resolve { unresolved, span, base: self.base.clone() }
                },
                None => {
                    self.phase = Phase::Done;
                    Action::Abort { error: LoadError::Encoding { path: imp.path } }
                },
            }
        } else {
            match self.pop_uncached() {
                Some(p) => {
                    let ghost cached = self.cached();
                    proof {
                        lemma_popped_uncached(old(self).worklist(), cached);
                    }
                    self.cache.push(p.clone());
                    assert(self.cached() =~= cached.push(p@));
                    self.base = p.clone();
                    let format = input_format(p.as_str());
                    self.phase = Phase::AwaitingText;
                    Action::Fetch { path: p, format }
                },
                None => {
                    self.phase = Phase::Done;
                    Action::Evaluate { root: self.root.clone() }
                },
            }
        }
    }

    /// Reports the text of the document last fetched, and the imports that
    /// parsing it found, in tree order.
    pub fn text_fetched(&mut self, text: &str, imports: Vec<ImportRef>)
        requires
            old(self).wf(),
            old(self).phase() == Phase::AwaitingText,
        ensures
            final(self).wf(),
            final(self).root() == old(self).root(),
            final(self).worklist() == old(self).worklist(),
            final(self).cached() == old(self).cached(),
            final(self).base() == old(self).base(),
            byte_offset(text@, text@.len() as int) <= MAX_TEXT_BYTES ==> {
                &&& final(self).phase() == Phase::Ready
                &&& final(self).pending() == imports@
                &&& final(self).text() == text@
                &&& final(self).index() == 0
            },
            byte_offset(text@, text@.len() as int) > MAX_TEXT_BYTES ==> {
                &&& final(self).phase() == Phase::Failed
                &&& final(self).failure() matches Some(LoadError::Parse { .. })
            },
    {
        match Utf16Cursor::new(chars_of(text)) {
            Some(cursor) => {
                self.cursor = Some(cursor);
                self.imports = imports;
                self.phase = Phase::Ready;
            },
            None => {
                self.error = Some(
                    LoadError::Parse { message: "document too large to address".to_string() },
                );
                self.phase = Phase::Failed;
            },
        }
    }

    /// Reports the resolved path of the import last handed out; a path not yet
    /// in the document cache joins the worklist.
    pub fn path_resolved(&mut self, resolved: String)
        requires
            old(self).wf(),
            old(self).phase() == Phase::AwaitingPath,
        ensures
            final(self).wf(),
            final(self).phase() == Phase::Ready,
            final(self).root() == old(self).root(),
            final(self).cached() == old(self).cached(),
            final(self).worklist() == if old(self).cached().contains(resolved@) {
                old(self).worklist()
            } else {
                old(self).worklist().push(resolved@)
            },
            final(self).pending() == old(self).pending(),
            final(self).base() == old(self).base(),
            final(self).text() == old(self).text(),
            final(self).index() == old(self).index(),
    {
        if !self.is_cached(&resolved) {
            let ghost w = self.worklist();
            self.worklist.push(resolved);
            assert(self.worklist() =~= w.push(resolved@));
        }
        self.phase = Phase::Ready;
    }

    /// Reports that the action handed out failed; the next action hands the
    /// failure back and ends the crawl.
    pub fn failed(&mut self, error: LoadError)
        requires
            old(self).wf(),
            old(self).phase() == Phase::AwaitingText || old(self).phase() == Phase::AwaitingPath,
        ensures
            final(self).wf(),
            final(self).phase() == Phase::Failed,
            final(self).failure() == Some(error),
            final(self).root() == old(self).root(),
            final(self).worklist() == old(self).worklist(),
            final(self).cached() == old(self).cached(),
    {
        self.error = Some(error);
        self.phase = Phase::Failed;
    }

    /// The paths fetched during a crawl, which make up the document cache,
    /// never repeat: each document is fetched at most once.
    pub proof fn lemma_fetched_at_most_once(&self)
        requires
            self.wf(),
        ensures
            self.cached().no_duplicates(),
    {
    }
}

} // verus!
