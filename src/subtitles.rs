//! The subtitle index: entries parsed from a timestamped text document, with
//! positional reads and the time query that navigation relies on.
use vstd::prelude::*;

verus! {

/// One timestamped line of a subtitle track; times are in milliseconds from
/// the start of the track.
#[derive(Clone, Debug)]
pub struct SubtitleEntry {
    pub start_time: u64,
    pub end_time: u64,
    pub text: String,
}

/// Why a subtitle document could not be read.
#[derive(Clone, Copy, Debug, PartialEq, Eq, Structural)]
pub enum ParseError {
    /// A block lacks its number, its timestamp pair or a parseable timestamp.
    /// The payload is the block's number where it could be read, else zero.
    Malformed(usize),
}

/// Milliseconds in a clock reading of hours, minutes, seconds and milliseconds.
pub open spec fn clock_millis(hours: int, minutes: int, seconds: int, millis: int) -> int {
    ((hours * 60 + minutes) * 60 + seconds) * 1000 + millis
}

/// Relies on srtlib::Timestamp::convert_to_milliseconds, whose body is this
/// formula; with `u8` hours it stays below 2^32, so it never overflows.
pub assume_specification[ srtlib::Timestamp::convert_to_milliseconds ](
    hours: u8,
    minutes: u8,
    seconds: u8,
    milliseconds: u16,
) -> (r: u32)
    ensures
        r == clock_millis(hours as int, minutes as int, seconds as int, milliseconds as int),
;

/// What the subtitle parser makes of a document.
pub uninterp spec fn srt_parse_of(document: Seq<char>) -> Result<Seq<SubtitleEntry>, ParseError>;

/// What reading a document gives: its entries, or the reason it was refused.
pub type EntriesOutcome = Result<Vec<SubtitleEntry>, ParseError>;

/// The outcome of a parse, with the entries seen as a sequence.
pub open spec fn entries_outcome(r: EntriesOutcome) -> Result<
    Seq<SubtitleEntry>,
    ParseError,
> {
    match r {
        Ok(v) => Ok(v@),
        Err(e) => Err(e),
    }
}

/// A successful parse that found no entry.
pub open spec fn no_entries() -> Result<Seq<SubtitleEntry>, ParseError> {
    Ok(Seq::empty())
}

/// The outcome of reading a store, with the store seen as its entries.
pub open spec fn store_outcome(r: Result<SubtitleStore, ParseError>) -> Result<
    Seq<SubtitleEntry>,
    ParseError,
> {
    match r {
        Ok(store) => Ok(store@),
        Err(e) => Err(e),
    }
}

/// Relies on srtlib::Subtitles::parse_from_str, which splits the document into
/// blank-line separated blocks of number, "start --> end" line and text; its
/// outcome depends on the text alone, and a document without blocks gives no
/// entries. Each timestamp is read back through Timestamp::get and
/// Timestamp::convert_to_milliseconds.
#[verifier::external_body]
fn parse_srt(document: String) -> (r: EntriesOutcome)
    ensures
        srt_parse_of(document@) == entries_outcome(r),
        document@.len() == 0 ==> entries_outcome(r) == no_entries(),
{
    let millis = |t: srtlib::Timestamp| {
        let (h, m, s, ms) = t.get();
        srtlib::Timestamp::convert_to_milliseconds(h, m, s, ms) as u64
    };
    match srtlib::Subtitles::parse_from_str(document) {
        Ok(subs) => Ok(subs.to_vec().into_iter().map(|s| SubtitleEntry {
            start_time: millis(s.start_time),
            end_time: millis(s.end_time),
            text: s.text,
        }).collect()),
        Err(srtlib::ParsingError::BadSubtitleStructure(n)) => Err(ParseError::Malformed(n)),
        Err(_) => Err(ParseError::Malformed(0)),
    }
}

/// Distance between a start time and a target time.
pub open spec fn gap(a: u64, t: u64) -> int {
    if a >= t {
        a - t
    } else {
        t - a
    }
}

/// Entry `i` is strictly preferred to entry `j` as the nearest to `t`: an
/// entry at or after `t` wins over one before it; on the same side the one
/// closer to `t` wins.
pub open spec fn beats(s: Seq<SubtitleEntry>, t: u64, i: int, j: int) -> bool {
    let ai = s[i].start_time >= t;
    let aj = s[j].start_time >= t;
    (ai && !aj) || (ai == aj && gap(s[i].start_time, t) < gap(s[j].start_time, t))
}

/// `i` is the index of the entry nearest to `t`: no entry is preferred to it,
/// and it is preferred to every entry before it (ties go to the lowest index).
pub open spec fn is_nearest(s: Seq<SubtitleEntry>, t: u64, i: int) -> bool {
    &&& 0 <= i < s.len()
    &&& forall|j: int| 0 <= j < s.len() ==> !#[trigger] beats(s, t, j, i)
    &&& forall|j: int| 0 <= j < i ==> #[trigger] beats(s, t, i, j)
}

/// Start times strictly increase along the track.
pub open spec fn starts_increasing(s: Seq<SubtitleEntry>) -> bool {
    forall|a: int, b: int| 0 <= a < b < s.len() ==> s[a].start_time < s[b].start_time
}

/// On a track whose start times strictly increase, the nearest entry is the
/// first one starting at or after `t`, or the last entry when all start
/// before `t`.
pub proof fn lemma_nearest_in_increasing_track(s: Seq<SubtitleEntry>, t: u64, i: int)
    requires
        starts_increasing(s),
        is_nearest(s, t, i),
    ensures
        (exists|j: int| 0 <= j < s.len() && s[j].start_time >= t) ==> (s[i].start_time >= t
            && forall|j: int| 0 <= j < i ==> s[j].start_time < t),
        (forall|j: int| 0 <= j < s.len() ==> s[j].start_time < t) ==> i == s.len() - 1,
{
    if exists|j: int| 0 <= j < s.len() && s[j].start_time >= t {
        let w = choose|j: int| 0 <= j < s.len() && s[j].start_time >= t;
        assert(!beats(s, t, w, i));
        assert forall|j: int| 0 <= j < i implies s[j].start_time < t by {
            assert(beats(s, t, i, j));
        }
    }
    if forall|j: int| 0 <= j < s.len() ==> s[j].start_time < t {
        if i < s.len() - 1 {
            assert(!beats(s, t, s.len() - 1, i));
        }
    }
}

/// When `t` is exactly the start time of entry `k`, the nearest entry starts
/// at `t` and comes no later than `k`; if no other entry starts at `t`, it is
/// entry `k` itself.
pub proof fn lemma_nearest_exact_start(s: Seq<SubtitleEntry>, t: u64, i: int, k: int)
    requires
        is_nearest(s, t, i),
        0 <= k < s.len(),
        s[k].start_time == t,
    ensures
        s[i].start_time == t,
        i <= k,
        (forall|j: int| 0 <= j < s.len() && j != k ==> s[j].start_time != t) ==> i == k,
{
    assert(!beats(s, t, k, i));
    if i > k {
        assert(beats(s, t, i, k));
    }
}

/// A parsed subtitle track: its entries in document order.
pub struct SubtitleStore {
    entries: Vec<SubtitleEntry>,
}

impl View for SubtitleStore {
    type V = Seq<SubtitleEntry>;

    closed spec fn view(&self) -> Seq<SubtitleEntry> {
        self.entries@
    }
}

impl SubtitleStore {
    /// A store with no entries.
    pub fn new() -> (r: SubtitleStore)
        ensures
            r@.len() == 0,
    {
        SubtitleStore { entries: Vec::new() }
    }

    /// Reads a subtitle document. Entries keep the document's order; an empty
    /// document gives an empty store, and a malformed block fails the whole
    /// document.
    pub fn parse(document: String) -> (r: Result<SubtitleStore, ParseError>)
        ensures
            srt_parse_of(document@) == store_outcome(r),
            document@.len() == 0 ==> store_outcome(r) == no_entries(),
    {
        match parse_srt(document) {
            Ok(entries) => Ok(SubtitleStore { entries }),
            Err(e) => Err(e),
        }
    }

    /// The entry at `index`, if there is one.
    pub fn entry_at(&self, index: usize) -> (r: Option<&SubtitleEntry>)
        ensures
            index < self@.len() ==> r == Some(&self@[index as int]),
            index >= self@.len() ==> r is None,
    {
        if index < self.entries.len() {
            Some(&self.entries[index])
        } else {
            None
        }
    }

    /// The number of entries.
    pub fn len(&self) -> (r: usize)
        ensures
            r == self@.len(),
    {
        self.entries.len()
    }

    /// Whether the store holds no entry.
    pub fn is_empty(&self) -> (r: bool)
        ensures
            r == (self@.len() == 0),
    {
        self.entries.len() == 0
    }

    /// The index of the entry nearest to `target`: the closest one starting at
    /// or after it, else the closest one starting before it; ties go to the
    /// lowest index. This holds whatever the order of the start times.
    pub fn nearest_index_at_or_after(&self, target: u64) -> (r: usize)
        requires
            self@.len() > 0,
        ensures
            is_nearest(self@, target, r as int),
    {
        let ghost s = self@;
        let n = self.entries.len();
        let mut best: usize = 0;
        let mut k: usize = 1;
        while k < n
            invariant
                s == self@,
                n == s.len(),
                0 <= best < k <= n,
                forall|j: int| 0 <= j < k ==> !#[trigger] beats(s, target, j, best as int),
                forall|j: int| 0 <= j < best ==> #[trigger] beats(s, target, best as int, j),
            decreases n - k,
        {
            let p = Self::prefers(&self.entries[k], &self.entries[best], target);
            proof {
                assert(p == beats(s, target, k as int, best as int));
            }
            if p {
                proof {
                    assert forall|j: int| 0 <= j < k implies #[trigger] beats(
                        s,
                        target,
                        k as int,
                        j,
                    ) by {
                        assert(!beats(s, target, j, best as int));
                    }
                    assert forall|j: int| 0 <= j <= k implies !#[trigger] beats(
                        s,
                        target,
                        j,
                        k as int,
                    ) by {
                        if j < k {
                            assert(beats(s, target, k as int, j));
                        }
                    }
                }
                best = k;
            }
            k += 1;
        }
        best
    }

    /// Whether entry `a` is strictly preferred to entry `b` as the nearest to `t`.
    fn prefers(a: &SubtitleEntry, b: &SubtitleEntry, t: u64) -> (r: bool)
        ensures
            r == ((a.start_time >= t && b.start_time < t) || ((a.start_time >= t) == (b.start_time
                >= t) && gap(a.start_time, t) < gap(b.start_time, t))),
    {
        let a_after = a.start_time >= t;
        let b_after = b.start_time >= t;
        if a_after != b_after {
            a_after
        } else {
            let da = if a_after { a.start_time - t } else { t - a.start_time };
            let db = if b_after { b.start_time - t } else { t - b.start_time };
            da < db
        }
    }
}

} // verus!
