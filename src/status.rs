use vstd::prelude::*;

verus! {

/// `pat` occurs in `text` starting at position `i`.
pub open spec fn occurs_at(text: Seq<char>, pat: Seq<char>, i: int) -> bool {
    0 <= i && i + pat.len() <= text.len() && text.subrange(i, i + pat.len()) == pat
}

/// `pat` occurs somewhere in `text` (unanchored substring containment).
pub open spec fn contains_seq(text: Seq<char>, pat: Seq<char>) -> bool {
    exists|i: int| occurs_at(text, pat, i)
}

/// What a line of the worker's output announces.
#[derive(Clone, Copy, Debug, PartialEq, Eq, Structural)]
pub enum LifecycleStatus {
    Downloading,
    Extracting,
    InitializingEngine,
    Ready,
    /// The line holds none of the markers: it is only traced.
    Unclassified,
}

pub open spec fn downloading_marker() -> Seq<char> {
    "STATUS: DOWNLOADING_DATA"@
}

pub open spec fn extracting_marker() -> Seq<char> {
    "STATUS: EXTRACTING_DATA"@
}

pub open spec fn initializing_marker() -> Seq<char> {
    "STATUS: INITIALIZING_ENGINE"@
}

pub open spec fn ready_marker() -> Seq<char> {
    "STATUS: READY"@
}

/// The status of a line: the first marker it contains, in the order
/// downloading, extracting, initializing, ready.
pub open spec fn classify_spec(line: Seq<char>) -> LifecycleStatus {
    if contains_seq(line, downloading_marker()) {
        LifecycleStatus::Downloading
    } else if contains_seq(line, extracting_marker()) {
        LifecycleStatus::Extracting
    } else if contains_seq(line, initializing_marker()) {
        LifecycleStatus::InitializingEngine
    } else if contains_seq(line, ready_marker()) {
        LifecycleStatus::Ready
    } else {
        LifecycleStatus::Unclassified
    }
}

/// Classifies one line of the worker's output by the markers it contains.
pub fn classify_line(line: &str) -> (r: LifecycleStatus)
    ensures
        r == classify_spec(line@),
{
    let text = chars_of(line);
    if contains_chars(&text, &chars_of("STATUS: DOWNLOADING_DATA")) {
        LifecycleStatus::Downloading
    } else if contains_chars(&text, &chars_of("STATUS: EXTRACTING_DATA")) {
        LifecycleStatus::Extracting
    } else if contains_chars(&text, &chars_of("STATUS: INITIALIZING_ENGINE")) {
        LifecycleStatus::InitializingEngine
    } else if contains_chars(&text, &chars_of("STATUS: READY")) {
        LifecycleStatus::Ready
    } else {
        LifecycleStatus::Unclassified
    }
}

/// The characters of `s`, in order.
pub fn chars_of(s: &str) -> (r: Vec<char>)
    ensures
        r@ == s@,
{
    let n = s.unicode_len();
    let mut r: Vec<char> = Vec::new();
    let mut i: usize = 0;
    while i < n
        invariant
            n == s@.len(),
            i <= n,
            r@ == s@.subrange(0, i as int),
        decreases n - i,
    {
        r.push(s.get_char(i));
        i = i + 1;
    }
    r
}

/// Whether `pat` occurs in `text` at position `i`.
fn matches_at(text: &Vec<char>, pat: &Vec<char>, i: usize) -> (r: bool)
    requires
        i + pat@.len() <= text@.len(),
    ensures
        r == occurs_at(text@, pat@, i as int),
{
    let n = text.len();
    let mut j: usize = 0;
    while j < pat.len()
        invariant
            n == text@.len(),
            i + pat@.len() <= text@.len(),
            j <= pat@.len(),
            forall|k: int| 0 <= k < j ==> text@[i + k] == pat@[k],
        decreases pat@.len() - j,
    {
        if text[i + j] != pat[j] {
            assert(text@.subrange(i as int, i + pat@.len())[j as int] != pat@[j as int]);
            return false;
        }
        j = j + 1;
    }
    assert(text@.subrange(i as int, i + pat@.len()) =~= pat@);
    true
}

/// Whether `pat` occurs anywhere in `text`.
pub fn contains_chars(text: &Vec<char>, pat: &Vec<char>) -> (r: bool)
    ensures
        r == contains_seq(text@, pat@),
{
    if pat.len() > text.len() {
        return false;
    }
    let last = text.len() - pat.len();
    let mut i: usize = 0;
    loop
        invariant
            last + pat@.len() == text@.len(),
            i <= last,
            forall|k: int| 0 <= k < i ==> !occurs_at(text@, pat@, k),
        decreases last - i,
    {
        if matches_at(text, pat, i) {
            return true;
        }
        if i == last {
            assert forall|k: int| !occurs_at(text@, pat@, k) by {
                if occurs_at(text@, pat@, k) {
                    assert(k <= i);
                }
            }
            return false;
        }
        i = i + 1;
    }
}

} // verus!
