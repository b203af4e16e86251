//! The cursor over a subtitle track: stepping by a count of entries and
//! jumping to a clock time.
use vstd::prelude::*;
use vstd::string::*;
use crate::subtitles::{SubtitleEntry, SubtitleStore, clock_millis, is_nearest};

verus! {

/// Why a clock text was refused.
#[derive(Clone, Copy, Debug, PartialEq, Eq, Structural)]
pub enum TimeParseError {
    /// The text is not a valid `HH:MM:SS` clock reading.
    InvalidFormat,
}

/// An ASCII decimal digit.
pub open spec fn is_digit(c: char) -> bool {
    '0' <= c && c <= '9'
}

/// The value of the two digits at `i` and `i + 1`.
pub open spec fn two_digits(s: Seq<char>, i: int) -> int {
    10 * (s[i] as int - '0' as int) + (s[i + 1] as int - '0' as int)
}

/// `s` reads `HH:MM:SS`: two digits each, minutes and seconds below sixty.
pub open spec fn clock_text_valid(s: Seq<char>) -> bool {
    &&& s.len() == 8
    &&& s[2] == ':' && s[5] == ':'
    &&& is_digit(s[0]) && is_digit(s[1])
    &&& is_digit(s[3]) && is_digit(s[4])
    &&& is_digit(s[6]) && is_digit(s[7])
    &&& two_digits(s, 3) < 60
    &&& two_digits(s, 6) < 60
}

/// The time a valid clock text stands for, in milliseconds, with a zero
/// millisecond part.
pub open spec fn clock_text_millis(s: Seq<char>) -> int {
    clock_millis(two_digits(s, 0), two_digits(s, 3), two_digits(s, 6), 0)
}

/// Reads the two digits at `i` and `i + 1` of `text`, if both are digits.
fn read_two_digits(text: &str, i: usize) -> (r: Option<u8>)
    requires
        i <= 6,
        text@.len() == 8,
    ensures
        r is Some <==> (is_digit(text@[i as int]) && is_digit(text@[i + 1])),
        r matches Some(v) ==> v == two_digits(text@, i as int),
{
    let a = text.get_char(i);
    let b = text.get_char(i + 1);
    if '0' <= a && a <= '9' && '0' <= b && b <= '9' {
        Some((10 * (a as u32 - '0' as u32) + (b as u32 - '0' as u32)) as u8)
    } else {
        None
    }
}

/// Converts an `HH:MM:SS` clock text to milliseconds.
pub fn parse_clock(text: &str) -> (r: Result<u64, TimeParseError>)
    ensures
        clock_text_valid(text@) ==> r == Ok::<u64, TimeParseError>(clock_text_millis(text@) as u64),
        !clock_text_valid(text@) ==> r == Err::<u64, TimeParseError>(TimeParseError::InvalidFormat),
{
    if text.unicode_len() != 8 {
        return Err(TimeParseError::InvalidFormat);
    }
    if text.get_char(2) != ':' || text.get_char(5) != ':' {
        return Err(TimeParseError::InvalidFormat);
    }
    let h = read_two_digits(text, 0);
    let m = read_two_digits(text, 3);
    let s = read_two_digits(text, 6);
    match (h, m, s) {
        (Some(h), Some(m), Some(s)) => {
            if m < 60 && s < 60 {
                let ms = srtlib::Timestamp::convert_to_milliseconds(h, m, s, 0);
                Ok(ms as u64)
            } else {
                Err(TimeParseError::InvalidFormat)
            }
        },
        _ => Err(TimeParseError::InvalidFormat),
    }
}

/// The position of the learner within one subtitle track.
pub struct NavigationController {
    store: SubtitleStore,
    current_index: usize,
}

impl NavigationController {
    /// The entries of the track being navigated.
    pub closed spec fn track(&self) -> Seq<SubtitleEntry> {
        self.store@
    }

    /// The index of the current entry.
    pub closed spec fn position(&self) -> int {
        self.current_index as int
    }

    /// The cursor stays within `[0, len - 1]`, and at zero on an empty track.
    pub open spec fn wf(&self) -> bool {
        &&& self.track().len() == 0 ==> self.position() == 0
        &&& self.track().len() > 0 ==> 0 <= self.position() < self.track().len()
    }

    /// A cursor at the first entry of `store`.
    pub fn new(store: SubtitleStore) -> (r: NavigationController)
        ensures
            r.wf(),
            r.track() == store@,
            r.position() == 0,
    {
        NavigationController { store, current_index: 0 }
    }

    /// Replaces the track and puts the cursor back at its first entry.
    pub fn load(&mut self, store: SubtitleStore)
        ensures
            final(self).wf(),
            final(self).track() == store@,
            final(self).position() == 0,
    {
        self.store = store;
        self.current_index = 0;
    }

    /// The track being navigated.
    pub fn store(&self) -> (r: &SubtitleStore)
        ensures
            r@ == self.track(),
    {
        &self.store
    }

    /// The index of the current entry.
    pub fn current_index(&self) -> (r: usize)
        ensures
            r == self.position(),
    {
        self.current_index
    }

    /// The current entry; `None` exactly when the track is empty.
    pub fn current(&self) -> (r: Option<&SubtitleEntry>)
        requires
            self.wf(),
        ensures
            self.track().len() == 0 ==> r is None,
            self.track().len() > 0 ==> r == Some(&self.track()[self.position()]),
    {
        self.store.entry_at(self.current_index)
    }

    /// Moves `n` entries forward, stopping at the last entry.
    pub fn step_forward(&mut self, n: usize)
        requires
            old(self).wf(),
        ensures
            final(self).wf(),
            final(self).track() == old(self).track(),
            old(self).track().len() == 0 ==> final(self).position() == 0,
            old(self).track().len() > 0 ==> final(self).position() == if old(self).position() + n
                < old(self).track().len() - 1 {
                old(self).position() + n
            } else {
                old(self).track().len() - 1
            },
    {
        let len = self.store.len();
        let last: usize = if len == 0 {
            0
        } else {
            len - 1
        };
        if n < last - self.current_index {
            self.current_index = self.current_index + n;
        } else {
            self.current_index = last;
        }
    }

    /// Moves `n` entries back, stopping at the first entry.
    pub fn step_backward(&mut self, n: usize)
        requires
            old(self).wf(),
        ensures
            final(self).wf(),
            final(self).track() == old(self).track(),
            final(self).position() == if old(self).position() >= n {
                old(self).position() - n
            } else {
                0
            },
    {
        if self.current_index >= n {
            self.current_index = self.current_index - n;
        } else {
            self.current_index = 0;
        }
    }

    /// Moves to the entry nearest to the `HH:MM:SS` time in `text`. An invalid
    /// text leaves the cursor where it was.
    pub fn jump_to_time(&mut self, text: &str) -> (r: Result<(), TimeParseError>)
        requires
            old(self).wf(),
        ensures
            final(self).wf(),
            final(self).track() == old(self).track(),
            !clock_text_valid(text@) ==> r == Err::<(), TimeParseError>(TimeParseError::InvalidFormat)
                && final(self).position() == old(self).position(),
            clock_text_valid(text@) ==> r == Ok::<(), TimeParseError>(()),
            clock_text_valid(text@) && old(self).track().len() > 0 ==> is_nearest(
                old(self).track(),
                clock_text_millis(text@) as u64,
                final(self).position(),
            ),
            old(self).track().len() == 0 ==> final(self).position() == 0,
    {
        match parse_clock(text) {
            Ok(ms) => {
                if !self.store.is_empty() {
                    self.current_index = self.store.nearest_index_at_or_after(ms);
                }
                Ok(())
            },
            Err(e) => Err(e),
        }
    }
}

} // verus!
