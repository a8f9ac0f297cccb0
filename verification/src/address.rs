//! Reading the reply of the address service: the body, trimmed of blanks,
//! has to be an IPv4 address in dotted-quad form.

use vstd::prelude::*;
use vstd::string::*;
use vstd::utf8::is_ascii_chars;
use crate::model::CycleError;

verus! {

/// The blanks that are trimmed: the space, the tab, the line feed, the
/// vertical tab, the form feed and the carriage return. No other character
/// is: a body that holds a blank of another kind, or any character beyond
/// ASCII, holds no address.
pub open spec fn is_blank(c: char) -> bool {
    c == ' ' || c == '\t' || c == '\n' || c == '\u{b}' || c == '\u{c}' || c == '\r'
}

pub open spec fn is_digit(c: char) -> bool {
    '0' <= c <= '9'
}

/// The first index at or after `from` that holds no blank.
pub open spec fn skip_blanks(s: Seq<char>, from: int) -> int
    decreases s.len() - from,
{
    if 0 <= from < s.len() && is_blank(s[from]) {
        skip_blanks(s, from + 1)
    } else {
        from
    }
}

/// The end of `s` without its trailing blanks, not below `low`.
pub open spec fn drop_blanks(s: Seq<char>, low: int, to: int) -> int
    decreases to,
{
    if 0 <= low < to <= s.len() && is_blank(s[to - 1]) {
        drop_blanks(s, low, to - 1)
    } else {
        to
    }
}

/// `s` without the blanks at its two ends.
pub open spec fn trimmed(s: Seq<char>) -> Seq<char> {
    let start = skip_blanks(s, 0);
    s.subrange(start, drop_blanks(s, start, s.len() as int))
}

/// The first index at or after `from` that holds no digit.
pub open spec fn digits_end(s: Seq<char>, from: int) -> int
    decreases s.len() - from,
{
    if 0 <= from < s.len() && is_digit(s[from]) {
        digits_end(s, from + 1)
    } else {
        from
    }
}

/// The number that a sequence of digits writes.
pub open spec fn numeral_value(s: Seq<char>) -> int
    decreases s.len(),
{
    if s.len() == 0 {
        0
    } else {
        numeral_value(s.drop_last()) * 10 + (s.last() as int - '0' as int)
    }
}

/// The digits from `from` on are one to three and write at most 255.
pub open spec fn octet_at(s: Seq<char>, from: int) -> bool {
    let end = digits_end(s, from);
    1 <= end - from <= 3 && numeral_value(s.subrange(from, end)) <= 255
}

pub open spec fn dot_at(s: Seq<char>, i: int) -> bool {
    0 <= i < s.len() && s[i] == '.'
}

/// Four octets with a dot between each two, and nothing else.
pub open spec fn is_dotted_quad(s: Seq<char>) -> bool {
    let a = digits_end(s, 0);
    let b = digits_end(s, a + 1);
    let c = digits_end(s, b + 1);
    let d = digits_end(s, c + 1);
    &&& octet_at(s, 0) && dot_at(s, a)
    &&& octet_at(s, a + 1) && dot_at(s, b)
    &&& octet_at(s, b + 1) && dot_at(s, c)
    &&& octet_at(s, c + 1) && d == s.len()
}

/// The address that a reply body holds, if it holds one.
pub open spec fn address_text(body: Seq<char>) -> Option<Seq<char>> {
    if is_ascii_chars(body) && is_dotted_quad(trimmed(body)) {
        Some(trimmed(body))
    } else {
        None
    }
}

proof fn lemma_digits_end_bounds(s: Seq<char>, from: int)
    requires
        0 <= from <= s.len(),
    ensures
        from <= digits_end(s, from) <= s.len(),
    decreases s.len() - from,
{
    if from < s.len() && is_digit(s[from]) {
        lemma_digits_end_bounds(s, from + 1);
    }
}

proof fn lemma_digits_before_end(s: Seq<char>, from: int, i: int)
    requires
        0 <= from <= i < digits_end(s, from),
        from <= s.len(),
    ensures
        i < s.len(),
        is_digit(s[i]),
    decreases i - from,
{
    lemma_digits_end_bounds(s, from);
    if from < i {
        lemma_digits_before_end(s, from + 1, i);
    }
}

/// A dotted quad is seven to fifteen characters long, holds exactly three
/// dots, none of them at an end or beside another, and digits elsewhere.
pub proof fn lemma_dotted_quad_shape(s: Seq<char>)
    requires
        is_dotted_quad(s),
    ensures
        7 <= s.len() <= 15,
        forall|i: int| 0 <= i < s.len() ==> is_digit(#[trigger] s[i]) || s[i] == '.',
        ({
            let a = digits_end(s, 0);
            let b = digits_end(s, a + 1);
            let c = digits_end(s, b + 1);
            &&& 0 < a && a + 1 < b && b + 1 < c && c + 1 < s.len()
            &&& forall|i: int|
                0 <= i < s.len() ==> (#[trigger] s[i] == '.' <==> i == a || i == b || i == c)
        }),
{
    let a = digits_end(s, 0);
    let b = digits_end(s, a + 1);
    let c = digits_end(s, b + 1);
    assert forall|i: int| 0 <= i < s.len() implies (is_digit(#[trigger] s[i]) <==> !(i == a || i
        == b || i == c)) by {
        if i < a {
            lemma_digits_before_end(s, 0, i);
        } else if a < i < b {
            lemma_digits_before_end(s, a + 1, i);
        } else if b < i < c {
            lemma_digits_before_end(s, b + 1, i);
        } else if c < i {
            lemma_digits_before_end(s, c + 1, i);
        }
    }
}

fn blank_byte(b: u8) -> (r: bool)
    ensures
        r == (b == 32 || (9 <= b && b <= 13)),
{
    b == 32 || (9 <= b && b <= 13)
}

/// Reads the octet that starts at `from`; gives its end.
fn read_octet(t: &str, n: usize, from: usize) -> (r: Option<usize>)
    requires
        t.is_ascii(),
        n == t@.len(),
        from <= n,
    ensures
        match r {
            Some(end) => octet_at(t@, from as int) && end == digits_end(t@, from as int) && end
                <= n,
            None => !octet_at(t@, from as int),
        },
{
    let mut i: usize = from;
    let mut value: u32 = 0;
    proof {
        assert(t@.subrange(from as int, from as int) =~= Seq::<char>::empty());
    }
    let mut more = true;
    while more && i < n && i - from < 4
        invariant
            t.is_ascii(),
            n == t@.len(),
            from <= i <= n,
            i - from <= 4,
            digits_end(t@, from as int) == digits_end(t@, i as int),
            value == numeral_value(t@.subrange(from as int, i as int)),
            i - from == 0 ==> value == 0,
            i - from == 1 ==> value <= 9,
            i - from == 2 ==> value <= 99,
            i - from == 3 ==> value <= 999,
            value <= 9999,
            !more ==> i < n && !is_digit(t@[i as int]),
        decreases (if more { 1int } else { 0int }) + n - i,
    {
        let b = t.get_ascii(i);
        if b < 48 || b > 57 {
            more = false;
        } else {
            proof {
                let longer = t@.subrange(from as int, i + 1);
                assert(longer.drop_last() =~= t@.subrange(from as int, i as int));
                assert(longer.last() == t@[i as int]);
            }
            value = value * 10 + (b - 48) as u32;
            i += 1;
        }
    }
    proof {
        lemma_digits_end_bounds(t@, i as int);
    }
    if i - from >= 1 && i - from <= 3 && value <= 255 {
        Some(i)
    } else {
        None
    }
}

/// Trims a reply body of the address service and checks that an IPv4 address
/// in dotted-quad form is left.
pub fn parse_address(body: &str) -> (r: Result<String, CycleError>)
    ensures
        match address_text(body@) {
            Some(address) => r matches Ok(s) && s@ == address,
            None => r == Err::<String, CycleError>(CycleError::Resolution),
        },
{
    if !body.is_ascii() {
        return Err(CycleError::Resolution);
    }
    let len = body.unicode_len();
    let mut start: usize = 0;
    while start < len && blank_byte(body.get_ascii(start))
        invariant
            body.is_ascii(),
            len == body@.len(),
            start <= len,
            skip_blanks(body@, 0) == skip_blanks(body@, start as int),
        decreases len - start,
    {
        start += 1;
    }
    let mut end: usize = len;
    while start < end && blank_byte(body.get_ascii(end - 1))
        invariant
            body.is_ascii(),
            len == body@.len(),
            start <= end <= len,
            drop_blanks(body@, start as int, len as int) == drop_blanks(
                body@,
                start as int,
                end as int,
            ),
        decreases end,
    {
        end -= 1;
    }
    let t = body.substring_ascii(start, end);
    assert(t@ == trimmed(body@));
    let n = end - start;
    let a = match read_octet(t, n, 0) {
        Some(a) => a,
        None => { return Err(CycleError::Resolution); },
    };
    if a >= n || t.get_ascii(a) != 46 {
        return Err(CycleError::Resolution);
    }
    let b = match read_octet(t, n, a + 1) {
        Some(b) => b,
        None => { return Err(CycleError::Resolution); },
    };
    if b >= n || t.get_ascii(b) != 46 {
        return Err(CycleError::Resolution);
    }
    let c = match read_octet(t, n, b + 1) {
        Some(c) => c,
        None => { return Err(CycleError::Resolution); },
    };
    if c >= n || t.get_ascii(c) != 46 {
        return Err(CycleError::Resolution);
    }
    let d = match read_octet(t, n, c + 1) {
        Some(d) => d,
        None => { return Err(CycleError::Resolution); },
    };
    if d != n {
        return Err(CycleError::Resolution);
    }
    Ok(String::from_str(t))
}

} // verus!
