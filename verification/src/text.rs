//! Marshaling of text across the native boundary, and rendering of log
//! records.
//!
//! The backend takes NUL-terminated strings, so a text can cross the
//! boundary only when it holds no embedded NUL character. `NativeText`
//! is a text that was checked to be free of embedded NUL; the unverified
//! driver appends the terminator when it hands the bytes to the backend.
//!
//! A rendered log record reads `[<file-basename>:<line>] <message>`,
//! with `?` for an unknown file and `0` for an unknown line. A rendered
//! message that cannot be marshaled is replaced by a fixed sentinel
//! text, never dropped: logging must not fail observably.

use vstd::prelude::*;
use vstd::string::StrSliceExecFns;
use vstd::string::StringExecFns;

verus! {

/// True when the text holds an embedded NUL character, which no
/// NUL-terminated native string can represent.
pub open spec fn contains_nul(s: Seq<char>) -> bool {
    exists|i: int| 0 <= i < s.len() && s[i] == '\0'
}

/// Character position of the first embedded NUL; meaningful only when
/// `contains_nul(s)` holds.
pub open spec fn first_nul_position(s: Seq<char>) -> int
    decreases s.len(),
{
    if s.len() == 0 {
        0
    } else if s[0] == '\0' {
        0
    } else {
        1 + first_nul_position(s.drop_first())
    }
}

proof fn lemma_first_nul_position_at(s: Seq<char>, i: int)
    requires
        0 <= i < s.len(),
        s[i] == '\0',
        forall|j: int| 0 <= j < i ==> s[j] != '\0',
    ensures
        contains_nul(s),
        first_nul_position(s) == i,
    decreases i,
{
    if i > 0 {
        lemma_first_nul_position_at(s.drop_first(), i - 1);
    }
}

/// Finds the first embedded NUL of a text, if any.
pub fn find_nul(s: &str) -> (r: Option<usize>)
    ensures
        match r {
            Some(i) => contains_nul(s@) && i < s@.len() && i as int == first_nul_position(s@),
            None => !contains_nul(s@),
        },
{
    let n: usize = s.unicode_len();
    let mut i: usize = 0;
    while i < n
        invariant
            n as nat == s@.len(),
            i <= n,
            forall|j: int| 0 <= j < i ==> s@[j] != '\0',
        decreases n - i,
    {
        if s.get_char(i) == '\0' {
            proof {
                lemma_first_nul_position_at(s@, i as int);
            }
            return Some(i);
        }
        i = i + 1;
    }
    None
}

/// A text that was checked to be representable as a NUL-terminated
/// native string: it holds no embedded NUL.
pub struct NativeText {
    text: String,
}

impl View for NativeText {
    type V = Seq<char>;

    closed spec fn view(&self) -> Seq<char> {
        self.text@
    }
}

impl NativeText {
    /// Well-formed: free of embedded NUL, so the driver's conversion to
    /// a terminated native string cannot fail.
    pub open spec fn wf(&self) -> bool {
        !contains_nul(self@)
    }

    /// The text itself, unchanged; the terminator is appended only at
    /// the native boundary.
    pub fn as_str(&self) -> (r: &str)
        ensures
            r@ == self@,
    {
        self.text.as_str()
    }
}

/// Marshals a text for the backend. Succeeds if and only if the text is
/// free of embedded NUL; a failure carries the character position of
/// the first NUL.
pub fn marshal(s: &str) -> (r: Result<NativeText, usize>)
    ensures
        match r {
            Ok(t) => !contains_nul(s@) && t@ == s@ && t.wf(),
            Err(pos) => contains_nul(s@) && pos as int == first_nul_position(s@),
        },
{
    match find_nul(s) {
        Some(i) => Err(i),
        None => Ok(NativeText { text: String::from_str(s) }),
    }
}

/// The fixed text substituted for a log message that cannot be
/// marshaled.
pub open spec fn sentinel_text() -> Seq<char> {
    "ERROR: NulError when converting log message from Rust to C."@
}

/// The sentinel never needs substitution itself.
pub proof fn lemma_sentinel_marshalable()
    ensures
        !contains_nul(sentinel_text()),
{
    reveal_strlit("ERROR: NulError when converting log message from Rust to C.");
    assert(forall|i: int| 0 <= i < sentinel_text().len() ==> sentinel_text()[i] != '\0');
}

/// The sentinel message, marshaled.
pub fn sentinel() -> (t: NativeText)
    ensures
        t@ == sentinel_text(),
        t.wf(),
{
    proof {
        lemma_sentinel_marshalable();
    }
    NativeText { text: String::from_str("ERROR: NulError when converting log message from Rust to C.") }
}

/// Marshals a rendered log message. A message with an embedded NUL is
/// replaced by the sentinel, so the result is always well-formed and
/// the logging path never fails.
pub fn marshal_message(s: &str) -> (t: NativeText)
    ensures
        t@ == if contains_nul(s@) {
            sentinel_text()
        } else {
            s@
        },
        t.wf(),
{
    match marshal(s) {
        Ok(t) => t,
        Err(_) => sentinel(),
    }
}

/// The decimal digit for a value below ten.
pub open spec fn digit_char(d: nat) -> char {
    if d == 0 {
        '0'
    } else if d == 1 {
        '1'
    } else if d == 2 {
        '2'
    } else if d == 3 {
        '3'
    } else if d == 4 {
        '4'
    } else if d == 5 {
        '5'
    } else if d == 6 {
        '6'
    } else if d == 7 {
        '7'
    } else if d == 8 {
        '8'
    } else {
        '9'
    }
}

/// The decimal rendering of a number, most significant digit first,
/// without leading zeros (a single `0` for zero).
pub open spec fn decimal_digits(n: nat) -> Seq<char>
    decreases n,
{
    if n < 10 {
        seq![digit_char(n)]
    } else {
        decimal_digits(n / 10).push(digit_char(n % 10))
    }
}

fn digit_str(d: u32) -> (r: &'static str)
    requires
        d < 10,
    ensures
        r@ == seq![digit_char(d as nat)],
{
    let r: &'static str = match d {
        0 => "0",
        1 => "1",
        2 => "2",
        3 => "3",
        4 => "4",
        5 => "5",
        6 => "6",
        7 => "7",
        8 => "8",
        _ => "9",
    };
    proof {
        reveal_strlit("0");
        reveal_strlit("1");
        reveal_strlit("2");
        reveal_strlit("3");
        reveal_strlit("4");
        reveal_strlit("5");
        reveal_strlit("6");
        reveal_strlit("7");
        reveal_strlit("8");
        reveal_strlit("9");
        assert(r@ =~= seq![digit_char(d as nat)]);
    }
    r
}

/// Renders a number in decimal.
pub fn u32_decimal(n: u32) -> (s: String)
    ensures
        s@ == decimal_digits(n as nat),
    decreases n,
{
    if n < 10 {
        String::from_str(digit_str(n))
    } else {
        let mut s = u32_decimal(n / 10);
        s.append(digit_str(n % 10));
        proof {
            assert(s@ =~= decimal_digits(n as nat));
        }
        s
    }
}

/// The suffix of a path after its last `/`; the path itself when it
/// holds no `/`.
pub open spec fn basename(s: Seq<char>) -> Seq<char>
    decreases s.len(),
{
    if s.len() == 0 {
        s
    } else if s.last() == '/' {
        Seq::empty()
    } else {
        basename(s.drop_last()).push(s.last())
    }
}

proof fn lemma_basename_no_slash(s: Seq<char>)
    requires
        forall|i: int| 0 <= i < s.len() ==> s[i] != '/',
    ensures
        basename(s) == s,
    decreases s.len(),
{
    if s.len() == 0 {
        assert(basename(s) =~= s);
    } else {
        lemma_basename_no_slash(s.drop_last());
        assert(basename(s) =~= s);
    }
}

proof fn lemma_basename_after_slash(s: Seq<char>, i: int)
    requires
        0 <= i < s.len(),
        s[i] == '/',
        forall|j: int| i < j < s.len() ==> s[j] != '/',
    ensures
        basename(s) == s.subrange(i + 1, s.len() as int),
    decreases s.len(),
{
    if i == s.len() - 1 {
        assert(basename(s) =~= s.subrange(i + 1, s.len() as int));
    } else {
        lemma_basename_after_slash(s.drop_last(), i);
        assert(basename(s) =~= s.subrange(i + 1, s.len() as int));
    }
}

/// The basename of a path: what follows its last `/`.
pub fn basename_of(file: &str) -> (r: &str)
    ensures
        r@ == basename(file@),
{
    let n: usize = file.unicode_len();
    let mut i: usize = n;
    while i > 0
        invariant
            n as nat == file@.len(),
            i <= n,
            forall|j: int| i <= j < n ==> file@[j] != '/',
        decreases i,
    {
        if file.get_char(i - 1) == '/' {
            let r = file.substring_char(i, n);
            proof {
                lemma_basename_after_slash(file@, (i - 1) as int);
            }
            return r;
        }
        i = i - 1;
    }
    proof {
        lemma_basename_no_slash(file@);
    }
    file
}

/// The rendered form of a log record: `[<file-basename>:<line>]`
/// followed by the message, with `?` for an unknown file and `0` for an
/// unknown line.
pub open spec fn rendered_text(
    file: Option<Seq<char>>,
    line: Option<u32>,
    message: Seq<char>,
) -> Seq<char> {
    let f = match file {
        Some(f) => f,
        None => "?"@,
    };
    let l: u32 = match line {
        Some(l) => l,
        None => 0u32,
    };
    "["@ + basename(f) + ":"@ + decimal_digits(l as nat) + "] "@ + message
}

/// Renders a log record with its source location.
pub fn render_record(file: Option<&str>, line: Option<u32>, message: &str) -> (r: String)
    ensures
        r@ == rendered_text(file.deep_view(), line, message@),
{
    let base: &str = match file {
        Some(f) => basename_of(f),
        None => basename_of("?"),
    };
    let ln: u32 = match line {
        Some(l) => l,
        None => 0,
    };
    let mut s = String::from_str("[");
    s.append(base);
    s.append(":");
    let digits = u32_decimal(ln);
    s.append(digits.as_str());
    s.append("] ");
    s.append(message);
    proof {
        assert(s@ =~= rendered_text(file.deep_view(), line, message@));
    }
    s
}

} // verus!
