//! Source positions, and the choice of the stack frame that identifies a
//! call site.

use vstd::prelude::*;
use vstd::std_specs::cmp::PartialEqSpecImpl;
use vstd::string::StringSliceAdditionalSpecFns;
use vstd::utf8::encode_utf8;

verus! {

/// A source position: where a lock was created or a guard was taken.
#[derive(Debug, Hash, PartialOrd, Ord)]
pub struct Location {
    pub path: String,
    pub line: u32,
    pub col: u32,
}

/// The mathematical value of a [`Location`].
pub struct LocationView {
    pub path: Seq<char>,
    pub line: u32,
    pub col: u32,
}

impl View for Location {
    type V = LocationView;

    open spec fn view(&self) -> LocationView {
        LocationView { path: self.path@, line: self.line, col: self.col }
    }
}

impl Clone for Location {
    fn clone(&self) -> (r: Self)
        ensures
            r@ == self@,
    {
        Location { path: self.path.clone(), line: self.line, col: self.col }
    }
}

impl PartialEq for Location {
    fn eq(&self, other: &Self) -> (r: bool) {
        self.path == other.path && self.line == other.line && self.col == other.col
    }
}

impl Eq for Location {

}

impl PartialEqSpecImpl for Location {
    open spec fn obeys_eq_spec() -> bool {
        true
    }

    open spec fn eq_spec(&self, other: &Self) -> bool {
        self@ == other@
    }
}

impl Location {
    /// Builds a location from its three parts.
    pub fn new(path: String, line: u32, col: u32) -> (r: Self)
        ensures
            r@ == (LocationView { path: path@, line, col }),
    {
        Location { path, line, col }
    }
}

/// One symbol of a captured call stack, with what is known of its source
/// position.
#[derive(Debug)]
pub struct Frame {
    pub file: Option<String>,
    pub line: Option<u32>,
    pub col: Option<u32>,
}

/// Which frames of a call stack count as call sites.
#[derive(Debug, Clone, Copy, PartialEq, Eq, Hash, Structural)]
pub enum FrameFilter {
    /// Frames outside this library's own source and outside the runtime's.
    Callers,
    /// Frames inside test sources.
    Tests,
}

/// `needle` occurs in `hay` at offset `at`.
pub open spec fn occurs_at(needle: Seq<u8>, hay: Seq<u8>, at: int) -> bool {
    &&& 0 <= at
    &&& at + needle.len() <= hay.len()
    &&& hay.subrange(at, at + needle.len()) == needle
}

/// `needle` occurs somewhere in `hay`.
pub open spec fn occurs_in(needle: Seq<u8>, hay: Seq<u8>) -> bool {
    exists|at: int| occurs_at(needle, hay, at)
}

/// A file path counts under `filter`: for call sites of callers, it names
/// neither this library nor the compiler's own sources; for call sites of
/// tests, it names a test directory.
pub open spec fn path_counts(path: Seq<char>, filter: FrameFilter) -> bool {
    match filter {
        FrameFilter::Callers => !occurs_in("locktick".spec_bytes(), encode_utf8(path))
            && !occurs_in("rustc".spec_bytes(), encode_utf8(path)),
        FrameFilter::Tests => occurs_in("tests".spec_bytes(), encode_utf8(path)),
    }
}

/// A frame counts under `filter`: its file is known and its path counts.
pub open spec fn frame_counts(frame: Frame, filter: FrameFilter) -> bool {
    match frame.file {
        Some(path) => path_counts(path@, filter),
        None => false,
    }
}

/// The source position of a frame, where all of it is known.
pub open spec fn frame_site(frame: Frame) -> Option<LocationView> {
    match (frame.file, frame.line, frame.col) {
        (Some(path), Some(line), Some(col)) => Some(LocationView { path: path@, line, col }),
        _ => None,
    }
}

/// The call site that a call stack identifies: the position of the first
/// frame, innermost first, that counts under `filter`. There is none where
/// no frame counts, or where that frame's line or column is unknown.
pub open spec fn call_site(frames: Seq<Frame>, filter: FrameFilter) -> Option<LocationView>
    decreases frames.len(),
{
    if frames.len() == 0 {
        None
    } else if frame_counts(frames[0], filter) {
        frame_site(frames[0])
    } else {
        call_site(frames.drop_first(), filter)
    }
}

/// Whether `needle` occurs in `hay` at offset `at`.
fn matches_at(hay: &[u8], needle: &[u8], at: usize) -> (found: bool)
    requires
        at + needle@.len() <= hay@.len(),
    ensures
        found == occurs_at(needle@, hay@, at as int),
{
    let size: usize = hay.len();
    let mut k: usize = 0;
    while k < needle.len()
        invariant
            k <= needle@.len(),
            at + needle@.len() <= hay@.len() == size,
            forall|j: int| 0 <= j < k ==> hay@[at + j] == needle@[j],
        decreases needle@.len() - k,
    {
        if hay[at + k] != needle[k] {
            proof {
                let part = hay@.subrange(at as int, at + needle@.len());
                assert(part[k as int] == hay@[at + k]);
            }
            return false;
        }
        k += 1;
    }
    proof {
        assert(hay@.subrange(at as int, at + needle@.len()) =~= needle@);
    }
    true
}

/// Whether the text `needle` occurs in the text `hay`.
pub fn contains(hay: &str, needle: &str) -> (found: bool)
    ensures
        found == occurs_in(needle.spec_bytes(), hay.spec_bytes()),
{
    let text = hay.as_bytes();
    let part = needle.as_bytes();
    if part.len() > text.len() {
        return false;
    }
    let last: usize = text.len() - part.len();
    let mut at: usize = 0;
    loop
        invariant
            text@ == hay.spec_bytes(),
            part@ == needle.spec_bytes(),
            last == text@.len() - part@.len(),
            at <= last,
            forall|j: int| 0 <= j < at ==> !occurs_at(part@, text@, j),
        decreases last - at,
    {
        if matches_at(text, part, at) {
            return true;
        }
        if at == last {
            return false;
        }
        at += 1;
    }
}

/// Whether a file path counts under `filter`.
pub fn path_matches(path: &str, filter: FrameFilter) -> (counts: bool)
    ensures
        counts == path_counts(path@, filter),
{
    match filter {
        FrameFilter::Callers => !contains(path, "locktick") && !contains(path, "rustc"),
        FrameFilter::Tests => contains(path, "tests"),
    }
}

/// Picks the call site out of a captured call stack, innermost frame first.
pub fn select_call_site(frames: &Vec<Frame>, filter: FrameFilter) -> (site: Option<Location>)
    ensures
        match site {
            Some(location) => call_site(frames@, filter) == Some(location@),
            None => call_site(frames@, filter) is None,
        },
{
    let mut i: usize = 0;
    proof {
        assert(frames@.subrange(0, frames@.len() as int) =~= frames@);
    }
    while i < frames.len()
        invariant
            i <= frames@.len(),
            call_site(frames@, filter) == call_site(
                frames@.subrange(i as int, frames@.len() as int),
                filter,
            ),
        decreases frames@.len() - i,
    {
        let ghost rest = frames@.subrange(i as int, frames@.len() as int);
        proof {
            assert(rest[0] == frames@[i as int]);
            assert(rest.drop_first() =~= frames@.subrange(i + 1, frames@.len() as int));
        }
        let frame = &frames[i];
        let counts = match &frame.file {
            Some(path) => path_matches(path.as_str(), filter),
            None => false,
        };
        if counts {
            return match (&frame.file, frame.line, frame.col) {
                (Some(path), Some(line), Some(col)) => Some(Location::new(path.clone(), line, col)),
                _ => None,
            };
        }
        i += 1;
    }
    proof {
        assert(frames@.subrange(i as int, frames@.len() as int) =~= Seq::<Frame>::empty());
    }
    None
}

/// `backtrace::Backtrace::new`, read out through `Backtrace::frames`,
/// `BacktraceFrame::symbols` and the symbols' `filename`, `lineno` and
/// `colno`: the symbols of the current call stack, innermost first, each
/// with the file, line and column that the backtrace has for it. They depend
/// on where the call is made from, so nothing is claimed of them.
#[verifier::external_body]
fn capture_frames() -> Vec<Frame> {
    let backtrace = backtrace::Backtrace::new();
    let mut frames = Vec::new();
    for frame in backtrace.frames() {
        for symbol in frame.symbols() {
            frames.push(
                Frame {
                    file: symbol.filename().and_then(|path| path.to_str()).map(|s| s.to_owned()),
                    line: symbol.lineno(),
                    col: symbol.colno(),
                },
            );
        }
    }
    frames
}

/// Provides the means to procure the location of a lock or its guard: the
/// call site that the current call stack identifies under `filter`, if it
/// identifies one. A location that comes back is never a placeholder: it is
/// the position of a frame that counts under `filter`.
pub fn call_location(filter: FrameFilter) -> (site: Option<Location>)
    ensures
        site matches Some(l) ==> path_counts(l@.path, filter),
{
    let frames = capture_frames();
    proof {
        lemma_call_site_counts(frames@, filter);
    }
    select_call_site(&frames, filter)
}

/// The call site that a stack identifies lies in a file that counts.
pub proof fn lemma_call_site_counts(frames: Seq<Frame>, filter: FrameFilter)
    ensures
        call_site(frames, filter) matches Some(l) ==> path_counts(l.path, filter),
    decreases frames.len(),
{
    if frames.len() > 0 && !frame_counts(frames[0], filter) {
        lemma_call_site_counts(frames.drop_first(), filter);
    }
}

} // verus!
