//! The CIK (Central Index Key) value type.
//!
//! A [`Cik`] is a 10-character, zero-padded, purely numeric identifier. The
//! constructor validates and normalizes a free-form string: leading and
//! trailing whitespace is trimmed, the remainder must be 1 to 10 ASCII
//! digits, and the result is left-padded with `'0'` to exactly 10 characters.
//! Validation is syntactic only: no lookup against any registry is made.
//!
//! The trimmed whitespace is deliberately the ASCII set alone — space, tab,
//! line feed and carriage return ([`is_cik_space`]): a CIK is ASCII data, and
//! a fixed, enumerable set keeps the validation contract exact. A raw string
//! padded with any other Unicode whitespace is rejected as non-numeric rather
//! than silently trimmed.

use vstd::prelude::*;
use vstd::string::StrSliceExecFns;
use vstd::string::StringExecFns;

verus! {

/// The reasons a raw CIK string is rejected.
#[derive(Debug, Clone, Copy, PartialEq, Eq, PartialOrd, Ord, Hash)]
pub enum CikError {
    /// Nothing but whitespace was supplied.
    Empty,
    /// The trimmed string holds a character that is not an ASCII digit.
    NonNumeric,
    /// The trimmed string holds more than 10 digits.
    TooLong,
}

impl CikError {
    /// What [`CikError::message`] renders.
    pub open spec fn message_spec(&self) -> Seq<char> {
        match self {
            CikError::Empty => "the CIK is empty."@,
            CikError::NonNumeric => "the CIK holds a non-numeric character."@,
            CikError::TooLong => "the CIK holds more than 10 digits."@,
        }
    }

    /// A human-readable description of the rejection.
    pub fn message(&self) -> (text: String)
        ensures
            text@ == self.message_spec(),
    {
        match self {
            CikError::Empty => String::from_str("the CIK is empty."),
            CikError::NonNumeric => String::from_str("the CIK holds a non-numeric character."),
            CikError::TooLong => String::from_str("the CIK holds more than 10 digits."),
        }
    }
}

/// An ASCII decimal digit.
pub open spec fn is_cik_digit(c: char) -> bool {
    48 <= c as u32 && c as u32 <= 57
}

/// The whitespace characters stripped from either end of a raw CIK.
pub open spec fn is_cik_space(c: char) -> bool {
    c == ' ' || c == '\t' || c == '\n' || c == '\r'
}

/// `s` without its leading whitespace.
pub open spec fn drop_leading_spaces(s: Seq<char>) -> Seq<char>
    decreases s.len(),
{
    if s.len() > 0 && is_cik_space(s[0]) {
        drop_leading_spaces(s.drop_first())
    } else {
        s
    }
}

/// `s` without its trailing whitespace.
pub open spec fn drop_trailing_spaces(s: Seq<char>) -> Seq<char>
    decreases s.len(),
{
    if s.len() > 0 && is_cik_space(s[s.len() - 1]) {
        drop_trailing_spaces(s.drop_last())
    } else {
        s
    }
}

/// `s` without leading and trailing whitespace.
pub open spec fn trimmed(s: Seq<char>) -> Seq<char> {
    drop_trailing_spaces(drop_leading_spaces(s))
}

/// Every character of `s` is an ASCII digit.
pub open spec fn all_digits(s: Seq<char>) -> bool {
    forall|i: int| 0 <= i < s.len() ==> is_cik_digit(#[trigger] s[i])
}

/// Why `raw` is rejected as a CIK, or `None` if it is accepted: the trimmed
/// string must be non-empty, purely numeric, and at most 10 digits long, in
/// that order of checks.
pub open spec fn cik_rejection(raw: Seq<char>) -> Option<CikError> {
    let t = trimmed(raw);
    if t.len() == 0 {
        Some(CikError::Empty)
    } else if !all_digits(t) {
        Some(CikError::NonNumeric)
    } else if t.len() > 10 {
        Some(CikError::TooLong)
    } else {
        None
    }
}

/// The accepted form: the trimmed digits, left-padded with `'0'` to length 10.
pub open spec fn normalized_cik(raw: Seq<char>) -> Seq<char> {
    Seq::new((10 - trimmed(raw).len()) as nat, |i: int| '0') + trimmed(raw)
}

/// Well-formedness of a stored CIK: exactly 10 characters, all digits.
pub open spec fn valid_cik(s: Seq<char>) -> bool {
    s.len() == 10 && all_digits(s)
}

/// If the first `k` characters of `s` are whitespace and the character at `k`
/// (if any) is not, dropping leading whitespace yields the tail from `k`.
proof fn lemma_drop_leading(s: Seq<char>, k: int)
    requires
        0 <= k <= s.len(),
        forall|j: int| 0 <= j < k ==> is_cik_space(#[trigger] s[j]),
        k < s.len() ==> !is_cik_space(s[k]),
    ensures
        drop_leading_spaces(s) == s.subrange(k, s.len() as int),
    decreases k,
{
    if k == 0 {
        assert(s.subrange(0, s.len() as int) =~= s);
    } else {
        assert(is_cik_space(s[0]));
        lemma_drop_leading(s.drop_first(), k - 1);
        assert(s.drop_first().subrange(k - 1, s.drop_first().len() as int) =~= s.subrange(
            k,
            s.len() as int,
        ));
    }
}

/// If the characters of `s` from `k` on are whitespace and the character at
/// `k - 1` (if any) is not, dropping trailing whitespace yields the prefix up
/// to `k`.
proof fn lemma_drop_trailing(s: Seq<char>, k: int)
    requires
        0 <= k <= s.len(),
        forall|j: int| k <= j < s.len() ==> is_cik_space(#[trigger] s[j]),
        k > 0 ==> !is_cik_space(s[k - 1]),
    ensures
        drop_trailing_spaces(s) == s.subrange(0, k),
    decreases s.len(),
{
    if k == s.len() {
        assert(s.subrange(0, k) =~= s);
    } else {
        assert(is_cik_space(s[s.len() - 1]));
        lemma_drop_trailing(s.drop_last(), k);
        assert(s.drop_last().subrange(0, k) =~= s.subrange(0, k));
    }
}

/// A validated, normalized CIK: always 10 ASCII digits.
#[derive(Debug, PartialEq, Eq, PartialOrd, Ord, Hash)]
pub struct Cik {
    value: String,
}

impl View for Cik {
    type V = Seq<char>;

    closed spec fn view(&self) -> Seq<char> {
        self.value@
    }
}

impl Cik {
    /// The stored string as a spec-level value (its view equals `self@`).
    pub closed spec fn spec_string(&self) -> String {
        self.value
    }

    /// The view of the stored string is the view of the CIK itself.
    pub proof fn lemma_spec_string_view(&self)
        ensures
            self.spec_string()@ == self@,
    {
    }

    /// Well-formedness: the stored value is 10 ASCII digits.
    pub open spec fn wf(&self) -> bool {
        valid_cik(self@)
    }

    /// Validates and normalizes a raw CIK string.
    ///
    /// Trims leading and trailing whitespace, requires the remainder to be
    /// 1 to 10 ASCII digits, and zero-pads it on the left to 10 characters.
    pub fn new(raw: &str) -> (result: Result<Cik, CikError>)
        ensures
            result is Ok <==> cik_rejection(raw@) is None,
            result matches Ok(cik) ==> cik@ == normalized_cik(raw@) && cik.wf(),
            result matches Err(e) ==> cik_rejection(raw@) == Some(e),
    {
        let len = raw.unicode_len();
        let mut start: usize = 0;
        while start < len && is_space_char(raw.get_char(start))
            invariant
                0 <= start <= len,
                len == raw@.len(),
                forall|j: int| 0 <= j < start ==> is_cik_space(#[trigger] raw@[j]),
            decreases len - start,
        {
            start = start + 1;
        }
        let mut end: usize = len;
        while end > start && is_space_char(raw.get_char(end - 1))
            invariant
                start <= end <= len,
                len == raw@.len(),
                forall|j: int| end <= j < len ==> is_cik_space(#[trigger] raw@[j]),
            decreases end,
        {
            end = end - 1;
        }
        proof {
            lemma_drop_leading(raw@, start as int);
            let tail = raw@.subrange(start as int, len as int);
            lemma_drop_trailing(tail, end - start);
            assert(tail.subrange(0, end - start) =~= raw@.subrange(start as int, end as int));
            assert(trimmed(raw@) == raw@.subrange(start as int, end as int));
        }
        if end == start {
            return Err(CikError::Empty);
        }
        let mut i = start;
        while i < end
            invariant
                start <= i <= end <= len,
                len == raw@.len(),
                trimmed(raw@) == raw@.subrange(start as int, end as int),
                forall|j: int| start <= j < i ==> is_cik_digit(#[trigger] raw@[j]),
            decreases end - i,
        {
            if !is_digit_char(raw.get_char(i)) {
                proof {
                    assert(!is_cik_digit(trimmed(raw@)[i - start]));
                }
                return Err(CikError::NonNumeric);
            }
            i = i + 1;
        }
        proof {
            assert(forall|j: int|
                0 <= j < trimmed(raw@).len() ==> is_cik_digit(#[trigger] trimmed(raw@)[j]));
        }
        if end - start > 10 {
            return Err(CikError::TooLong);
        }
        let core = raw.substring_char(start, end);
        let mut value = String::new();
        let mut pad: usize = end - start;
        proof {
            reveal_strlit("0");
            assert(value@ =~= Seq::new((pad - (end - start)) as nat, |k: int| '0'));
        }
        while pad < 10
            invariant
                end - start <= pad <= 10,
                value@ == Seq::new((pad - (end - start)) as nat, |k: int| '0'),
            decreases 10 - pad,
        {
            value.append("0");
            pad = pad + 1;
            proof {
                reveal_strlit("0");
                assert(value@ =~= Seq::new((pad - (end - start)) as nat, |k: int| '0'));
            }
        }
        value.append(core);
        proof {
            assert(value@ =~= normalized_cik(raw@));
        }
        Ok(Cik { value })
    }

    /// The normalized 10-digit string.
    pub fn value(&self) -> (v: &str)
        ensures
            v@ == self@,
    {
        self.value.as_str()
    }

    /// Consumes the CIK and hands out the normalized string.
    pub fn into_string(self) -> (s: String)
        ensures
            s == self.spec_string(),
            s@ == self@,
    {
        self.value
    }
}

impl Clone for Cik {
    /// Cloning preserves the value exactly.
    fn clone(&self) -> (other: Self)
        ensures
            other == *self,
    {
        Cik { value: self.value.clone() }
    }
}

impl Default for Cik {
    /// The default CIK is all zeros.
    fn default() -> (cik: Self)
        ensures
            cik@ == "0000000000"@,
            cik.wf(),
    {
        let value = String::from_str("0000000000");
        proof {
            reveal_strlit("0000000000");
        }
        Cik { value }
    }
}

/// Whether `c` is one of the whitespace characters trimmed from a raw CIK.
fn is_space_char(c: char) -> (space: bool)
    ensures
        space == is_cik_space(c),
{
    c == ' ' || c == '\t' || c == '\n' || c == '\r'
}

/// Whether `c` is an ASCII decimal digit.
fn is_digit_char(c: char) -> (digit: bool)
    ensures
        digit == is_cik_digit(c),
{
    let u = c as u32;
    48 <= u && u <= 57
}

} // verus!
