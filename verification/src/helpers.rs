use crate::time::Duration;
use crate::time::NANOS_PER_SEC;
use vstd::prelude::*;
use vstd::string::*;

verus! {

/// The character for a digit below ten.
pub open spec fn digit(n: nat) -> char {
    (0x30 + n) as char
}

/// A number in decimal, without leading zeros.
pub open spec fn decimal(n: nat) -> Seq<char>
    decreases n,
{
    if n < 10 {
        seq![digit(n)]
    } else {
        decimal(n / 10).push(digit(n % 10))
    }
}

/// A number in decimal, in at least two digits.
pub open spec fn two_digits(n: nat) -> Seq<char> {
    if n < 10 {
        seq!['0', digit(n)]
    } else {
        decimal(n)
    }
}

/// A number of seconds as hours, minutes and seconds, each in at least two
/// digits, with colons between them.
pub open spec fn hms(seconds: nat) -> Seq<char> {
    two_digits(seconds / 3600) + seq![':'] + two_digits(seconds % 3600 / 60) + seq![':']
        + two_digits(seconds % 60)
}

/// The text of a digit below ten.
fn digit_str(d: u64) -> (r: &'static str)
    requires
        d < 10,
    ensures
        r@ == seq![digit(d as nat)],
{
    proof {
        reveal_strlit("0");
        reveal_strlit("1");
        reveal_strlit("2");
        reveal_strlit("3");
        reveal_strlit("4");
        reveal_strlit("5");
        reveal_strlit("6");
        reveal_strlit("7");
        reveal_strlit("8");
        reveal_strlit("9");
    }
    let r = if d == 0 {
        "0"
    } else if d == 1 {
        "1"
    } else if d == 2 {
        "2"
    } else if d == 3 {
        "3"
    } else if d == 4 {
        "4"
    } else if d == 5 {
        "5"
    } else if d == 6 {
        "6"
    } else if d == 7 {
        "7"
    } else if d == 8 {
        "8"
    } else {
        "9"
    };
    assert(r@ =~= seq![digit(d as nat)]);
    r
}

/// Writes a number in decimal.
pub fn decimal_string(n: u64) -> (r: String)
    ensures
        r@ == decimal(n as nat),
    decreases n,
{
    if n < 10 {
        digit_str(n).to_owned()
    } else {
        let r = decimal_string(n / 10).concat(digit_str(n % 10));
        assert(r@ =~= decimal(n as nat));
        r
    }
}

/// Writes a number in decimal, in at least two digits.
fn two_digit_string(n: u64) -> (r: String)
    ensures
        r@ == two_digits(n as nat),
{
    if n < 10 {
        proof {
            reveal_strlit("0");
        }
        let r = "0".to_owned().concat(digit_str(n));
        assert(r@ =~= two_digits(n as nat));
        r
    } else {
        decimal_string(n)
    }
}

/// Writes a number of seconds as `HH:MM:SS`; the hours take more than two
/// digits where they need them.
pub fn s2hms(seconds: u64) -> (r: String)
    ensures
        r@ == hms(seconds as nat),
{
    let hours: u64 = seconds / 3600;
    let minutes: u64 = (seconds % 3600) / 60;
    let seconds: u64 = seconds % 60;
    proof {
        reveal_strlit(":");
        assert(":"@ =~= seq![':']);
    }
    two_digit_string(hours).concat(":").concat(two_digit_string(minutes).as_str()).concat(
        ":",
    ).concat(two_digit_string(seconds).as_str())
}

/// Writes the whole seconds of a span as `HH:MM:SS`.
pub fn d2hms(duration: Duration) -> (r: String)
    ensures
        r@ == hms(duration.total_nanos() / (NANOS_PER_SEC as nat)),
{
    s2hms(duration.as_secs())
}

/// Whether `pattern` stands in `text` at the place `at`.
pub open spec fn occurs_at(text: Seq<char>, pattern: Seq<char>, at: int) -> bool {
    0 <= at && at + pattern.len() <= text.len() && text.subrange(at, at + pattern.len())
        == pattern
}

/// The first place at or after `from` at which `pattern` stands in `text`.
pub open spec fn find_from(text: Seq<char>, pattern: Seq<char>, from: int) -> Option<int>
    decreases text.len() + 1 - from,
{
    if from < 0 || from + pattern.len() > text.len() {
        None
    } else if occurs_at(text, pattern, from) {
        Some(from)
    } else {
        find_from(text, pattern, from + 1)
    }
}

/// The first place at which `pattern` stands in `text`.
pub open spec fn find(text: Seq<char>, pattern: Seq<char>) -> Option<int> {
    find_from(text, pattern, 0)
}

/// A title without its artist.
///
/// Where the artist, then ` - `, stands in the title, what follows the first
/// such place is left. Else, where ` - `, then the artist, stands in it, what
/// follows the ` - ` of the first such place is left. Else the title is left
/// as it is.
pub open spec fn trimmed(title: Seq<char>, artist: Seq<char>) -> Seq<char> {
    match find(title, artist + " - "@) {
        Some(at) => title.skip(at + artist.len() + 3),
        None => match find(title, " - "@ + artist) {
            Some(at) => title.skip(at + 3),
            None => title,
        },
    }
}

/// What [`find`] gives is the first place at which the pattern stands, and
/// it gives nothing only where the pattern stands nowhere.
pub proof fn lemma_find_is_first(text: Seq<char>, pattern: Seq<char>, from: int)
    requires
        0 <= from,
    ensures
        match find_from(text, pattern, from) {
            Some(at) => from <= at && occurs_at(text, pattern, at) && forall|j: int|
                from <= j < at ==> !occurs_at(text, pattern, j),
            None => forall|j: int| from <= j ==> !occurs_at(text, pattern, j),
        },
    decreases text.len() + 1 - from,
{
    if from + pattern.len() <= text.len() && !occurs_at(text, pattern, from) {
        lemma_find_is_first(text, pattern, from + 1);
    }
}

/// The characters of a text, one by one.
pub(crate) fn chars_of(text: &str) -> (chars: Vec<char>)
    ensures
        chars@ == text@,
{
    let mut chars: Vec<char> = Vec::new();
    for c in it: text.chars()
        invariant
            it.seq() == text@,
            chars@ == it.seq().take(it.index() as int),
    {
        chars.push(c);
    }
    chars
}

/// Whether `pattern` stands in `text` at the place `at`.
pub(crate) fn matches_at(text: &Vec<char>, pattern: &Vec<char>, at: usize) -> (r: bool)
    requires
        at + pattern.len() <= text.len(),
    ensures
        r == occurs_at(text@, pattern@, at as int),
{
    let mut k: usize = 0;
    while k < pattern.len()
        invariant
            k <= pattern.len(),
            at + pattern.len() <= text.len(),
            forall|j: int| 0 <= j < k ==> text@[at + j] == pattern@[j],
        decreases pattern.len() - k,
    {
        if text[at + k] != pattern[k] {
            assert(text@.subrange(at as int, at + pattern.len())[k as int] != pattern@[k as int]);
            return false;
        }
        k += 1;
    }
    assert(text@.subrange(at as int, at + pattern.len()) =~= pattern@);
    true
}

/// The first place at which `pattern` stands in `text`.
fn find_in(text: &Vec<char>, pattern: &Vec<char>) -> (r: Option<usize>)
    ensures
        match r {
            Some(at) => find(text@, pattern@) == Some(at as int) && at + pattern.len()
                <= text.len(),
            None => find(text@, pattern@) is None,
        },
{
    if pattern.len() > text.len() {
        return None;
    }
    let last: usize = text.len() - pattern.len();
    let mut at: usize = 0;
    while at < last
        invariant
            at <= last,
            last == text.len() - pattern.len(),
            pattern.len() <= text.len(),
            find(text@, pattern@) == find_from(text@, pattern@, at as int),
        decreases last - at,
    {
        if matches_at(text, pattern, at) {
            return Some(at);
        }
        at += 1;
    }
    if matches_at(text, pattern, last) {
        Some(last)
    } else {
        assert(find_from(text@, pattern@, last + 1) is None);
        None
    }
}

/// Takes the artist out of a title.
///
/// A title `Artist - Rest` becomes `Rest`; in a title that holds ` - Artist`
/// what follows the ` - ` is left; any other title comes back as it is.
pub fn trim_artist_from_title(title: &str, artist: &str) -> (r: String)
    ensures
        r@ == trimmed(title@, artist@),
{
    proof {
        reveal_strlit(" - ");
        assert(" - "@.len() == 3);
    }
    let text = chars_of(title);
    let name = chars_of(artist);
    let dash = chars_of(" - ");
    let mut before: Vec<char> = name.clone();
    let mut dash_first: Vec<char> = dash.clone();
    let mut k: usize = 0;
    while k < 3
        invariant
            k <= 3,
            dash@.len() == 3,
            before@ == name@ + dash@.take(k as int),
        decreases 3 - k,
    {
        before.push(dash[k]);
        assert(dash@.take(k + 1) =~= dash@.take(k as int).push(dash@[k as int]));
        assert(before@ =~= name@ + dash@.take(k + 1));
        k += 1;
    }
    assert(dash@.take(3) =~= dash@);
    let mut k: usize = 0;
    while k < name.len()
        invariant
            k <= name.len(),
            dash_first@ == dash@ + name@.take(k as int),
        decreases name.len() - k,
    {
        dash_first.push(name[k]);
        assert(name@.take(k + 1) =~= name@.take(k as int).push(name@[k as int]));
        assert(dash_first@ =~= dash@ + name@.take(k + 1));
        k += 1;
    }
    assert(name@.take(name.len() as int) =~= name@);
    if let Some(at) = find_in(&text, &before) {
        return title.substring_char(at + name.len() + 3, text.len()).to_owned();
    }
    if let Some(at) = find_in(&text, &dash_first) {
        return title.substring_char(at + 3, text.len()).to_owned();
    }
    title.to_owned()
}

} // verus!
