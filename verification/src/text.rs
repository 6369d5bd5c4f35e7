//! Text building blocks: joining, trimming and decimal numerals.

use vstd::prelude::*;

verus! {

/// The characters with the Unicode `White_Space` property.
pub open spec fn is_white_space(c: char) -> bool {
    let u = c as u32;
    ||| 0x9 <= u <= 0xd
    ||| u == 0x20
    ||| u == 0x85
    ||| u == 0xa0
    ||| u == 0x1680
    ||| 0x2000 <= u <= 0x200a
    ||| u == 0x2028
    ||| u == 0x2029
    ||| u == 0x202f
    ||| u == 0x205f
    ||| u == 0x3000
}

/// `s` without its leading and trailing white space.
pub open spec fn trimmed(s: Seq<char>) -> Seq<char>
    decreases s.len(),
{
    if s.len() == 0 {
        s
    } else if is_white_space(s.first()) {
        trimmed(s.drop_first())
    } else if is_white_space(s.last()) {
        trimmed(s.drop_last())
    } else {
        s
    }
}

/// Whether `c` has the Unicode `White_Space` property.
fn white_space(c: char) -> (r: bool)
    ensures
        r == is_white_space(c),
{
    let u: u32 = c as u32;
    (0x9 <= u && u <= 0xd) || u == 0x20 || u == 0x85 || u == 0xa0 || u == 0x1680 || (0x2000 <= u && u
        <= 0x200a) || u == 0x2028 || u == 0x2029 || u == 0x202f || u == 0x205f || u == 0x3000
}

/// White space that is known to surround `s[from..to]` does not change what
/// trimming gives.
proof fn lemma_trimmed_inside(s: Seq<char>, from: int, to: int)
    requires
        0 <= from <= to <= s.len(),
        forall|i: int| 0 <= i < from ==> is_white_space(#[trigger] s[i]),
        forall|i: int| to <= i < s.len() ==> is_white_space(#[trigger] s[i]),
        from < to ==> !is_white_space(s[from]) && !is_white_space(s[to - 1]),
    ensures
        trimmed(s) == s.subrange(from, to),
    decreases s.len(),
{
    if s.len() == 0 {
        assert(s.subrange(from, to) =~= s);
    } else if is_white_space(s[0]) {
        let rest = s.drop_first();
        let start = if from > 0 { from - 1 } else { 0 };
        let end = if to > 0 { to - 1 } else { 0 };
        assert forall|i: int| 0 <= i < start implies is_white_space(#[trigger] rest[i]) by {
            assert(rest[i] == s[i + 1]);
        }
        assert forall|i: int| end <= i < rest.len() implies is_white_space(#[trigger] rest[i]) by {
            assert(rest[i] == s[i + 1]);
        }
        lemma_trimmed_inside(rest, start, end);
        assert(s.subrange(from, to) =~= rest.subrange(start, end));
    } else if is_white_space(s.last()) {
        let rest = s.drop_last();
        assert(from == 0);
        assert(to < s.len());
        lemma_trimmed_inside(rest, from, to);
        assert(s.subrange(from, to) =~= rest.subrange(from, to));
    } else {
        assert(from == 0);
        assert(to == s.len());
        assert(s.subrange(from, to) =~= s);
    }
}

/// `s` without its leading and trailing white space.
pub fn trim(s: &str) -> (r: &str)
    ensures
        r@ == trimmed(s@),
{
    let chars = chars_of(s);
    let mut from: usize = 0;
    while from < chars.len() && white_space(chars[from])
        invariant
            from <= chars@.len(),
            forall|i: int| 0 <= i < from ==> is_white_space(#[trigger] chars@[i]),
        decreases chars@.len() - from,
    {
        from = from + 1;
    }
    let mut to: usize = chars.len();
    while from < to && white_space(chars[to - 1])
        invariant
            from <= to <= chars@.len(),
            forall|i: int| to <= i < chars@.len() ==> is_white_space(#[trigger] chars@[i]),
        decreases to,
    {
        to = to - 1;
    }
    proof {
        lemma_trimmed_inside(s@, from as int, to as int);
    }
    s.substring_char(from, to)
}

/// Text that trimming leaves as it is.
pub open spec fn is_trimmed(s: Seq<char>) -> bool {
    s.len() > 0 ==> !is_white_space(s.first()) && !is_white_space(s.last())
}

/// A line break behind trimmed text goes away when the line is trimmed again.
pub proof fn trimming_drops_the_line_break(s: Seq<char>)
    requires
        is_trimmed(s),
    ensures
        trimmed(s.push('\n')) == s,
{
    reveal_with_fuel(trimmed, 2);
    let line = s.push('\n');
    assert(line.drop_last() =~= s);
    if s.len() == 0 {
        assert(line.drop_first() =~= s);
    } else {
        assert(line.first() == s.first());
    }
}

/// Trimming gives what stands between the white space at both ends, whatever
/// that is: where it begins and ends with other characters, it stays as it is.
pub proof fn trimming_keeps_what_is_between(head: Seq<char>, inside: Seq<char>, tail: Seq<char>)
    requires
        forall|i: int| 0 <= i < head.len() ==> is_white_space(#[trigger] head[i]),
        forall|i: int| 0 <= i < tail.len() ==> is_white_space(#[trigger] tail[i]),
        inside.len() > 0 ==> !is_white_space(inside.first()) && !is_white_space(inside.last()),
    ensures
        trimmed(head + inside + tail) == inside,
{
    let s = head + inside + tail;
    let from = head.len() as int;
    let to = from + inside.len();
    assert forall|i: int| to <= i < s.len() implies is_white_space(#[trigger] s[i]) by {
        assert(s[i] == tail[i - to]);
    }
    lemma_trimmed_inside(s, from, to);
    assert(s.subrange(from, to) =~= inside);
}

/// Trimmed text is a fixed point of trimming.
pub proof fn trimming_is_idempotent(s: Seq<char>)
    ensures
        is_trimmed(trimmed(s)),
        trimmed(trimmed(s)) == trimmed(s),
    decreases s.len(),
{
    if s.len() == 0 {
    } else if is_white_space(s.first()) {
        trimming_is_idempotent(s.drop_first());
    } else if is_white_space(s.last()) {
        trimming_is_idempotent(s.drop_last());
    }
}

/// The text of an optional string.
pub open spec fn optional_text(s: Option<String>) -> Option<Seq<char>> {
    match s {
        Some(t) => Some(t@),
        None => None,
    }
}

/// An outcome whose error is taken by its text.
pub open spec fn outcome_text<A>(r: Result<A, String>) -> Result<A, Seq<char>> {
    match r {
        Ok(a) => Ok(a),
        Err(e) => Err(e@),
    }
}

/// An outcome that is text either way.
pub open spec fn reply_text(r: Result<String, String>) -> Result<Seq<char>, Seq<char>> {
    match r {
        Ok(t) => Ok(t@),
        Err(e) => Err(e@),
    }
}

/// An independent copy of an optional string.
pub fn copy_optional(s: &Option<String>) -> (r: Option<String>)
    ensures
        r == *s,
{
    match s {
        Some(t) => Some(t.clone()),
        None => None,
    }
}

/// Whether two texts are the same.
pub fn same_text(a: &str, b: &str) -> (r: bool)
    ensures
        r == (a@ == b@),
{
    a.to_string() == b.to_string()
}

/// `a` followed by `b`.
pub fn join2(a: &str, b: &str) -> (r: String)
    ensures
        r@ == a@ + b@,
{
    let mut r = a.to_string();
    r.append(b);
    r
}

/// `a`, `b` and `c` one after the other.
pub fn join3(a: &str, b: &str, c: &str) -> (r: String)
    ensures
        r@ == a@ + b@ + c@,
{
    let mut r = a.to_string();
    r.append(b);
    r.append(c);
    r
}

/// All characters of `s` in order.
pub fn chars_of(s: &str) -> (r: Vec<char>)
    ensures
        r@ == s@,
{
    let mut r: Vec<char> = Vec::new();
    for c in it: s.chars()
        invariant
            r@ == it.seq().take(it.index() as int),
    {
        r.push(c);
    }
    r
}

/// The ten ASCII digits.
pub open spec fn is_digit(c: char) -> bool {
    '0' <= c <= '9'
}

/// The number that an ASCII digit stands for.
pub open spec fn digit_value(c: char) -> nat
    recommends
        is_digit(c),
{
    (c as u32 - '0' as u32) as nat
}

/// The ASCII digit for a number below ten.
pub open spec fn digit_char(d: nat) -> char
    recommends
        d < 10,
{
    ('0' as u32 + d) as char
}

/// The decimal numeral of `n`, without leading zeros.
pub open spec fn decimal(n: nat) -> Seq<char>
    decreases n,
{
    if n < 10 {
        seq![digit_char(n)]
    } else {
        decimal(n / 10).push(digit_char(n % 10))
    }
}

/// The number that a run of digits stands for.
pub open spec fn decimal_value(digits: Seq<char>) -> nat
    decreases digits.len(),
{
    if digits.len() == 0 {
        0
    } else {
        10 * decimal_value(digits.drop_last()) + digit_value(digits.last())
    }
}

pub open spec fn all_digits(s: Seq<char>) -> bool {
    forall|i: int| 0 <= i < s.len() ==> is_digit(#[trigger] s[i])
}

/// Reading back the decimal numeral of a number gives the number.
pub proof fn decimal_reads_back(n: nat)
    ensures
        decimal(n).len() > 0,
        all_digits(decimal(n)),
        decimal_value(decimal(n)) == n,
    decreases n,
{
    if n < 10 {
        assert(decimal(n).drop_last() =~= Seq::<char>::empty());
        reveal_with_fuel(decimal_value, 2);
    } else {
        decimal_reads_back(n / 10);
        assert(decimal(n).drop_last() =~= decimal(n / 10));
    }
}

/// A numeral is read from left to right: each further digit counts the digits
/// before it ten times over. No digits stand for nothing.
pub proof fn a_numeral_is_read_digit_by_digit(digits: Seq<char>, c: char)
    ensures
        decimal_value(Seq::empty()) == 0,
        '0' as u32 <= c as u32 <= '9' as u32 ==> decimal_value(digits.push(c)) == 10 * decimal_value(
            digits,
        ) + (c as u32 - 48),
        is_digit(c) <==> 48 <= c as u32 <= 57,
        all_digits(digits.push(c)) <==> all_digits(digits) && is_digit(c),
{
    let longer = digits.push(c);
    assert(longer.drop_last() =~= digits);
    if all_digits(longer) {
        assert forall|i: int| 0 <= i < digits.len() implies is_digit(#[trigger] digits[i]) by {
            assert(longer[i] == digits[i]);
        }
        assert(longer[digits.len() as int] == c);
    }
}

/// A numeral has no leading zeros: its first digit is a zero only for the number
/// zero, whose numeral is that one digit.
pub proof fn a_numeral_has_no_leading_zeros(n: nat)
    ensures
        n == 0 ==> decimal(n) == seq!['0'],
        n > 0 ==> decimal(n).first() != '0',
    decreases n,
{
    if n >= 10 {
        decimal_reads_back(n / 10);
        a_numeral_has_no_leading_zeros(n / 10);
    } else {
        assert(decimal(n).first() == digit_char(n));
    }
}

/// The one-digit numeral of a number below ten.
fn digit_text(d: u64) -> (r: &'static str)
    requires
        d < 10,
    ensures
        r@ == seq![digit_char(d as nat)],
{
    proof {
        reveal_strlit("0");
        reveal_strlit("1");
        reveal_strlit("2");
        reveal_strlit("3");
        reveal_strlit("4");
        reveal_strlit("5");
        reveal_strlit("6");
        reveal_strlit("7");
        reveal_strlit("8");
        reveal_strlit("9");
    }
    if d == 0 {
        "0"
    } else if d == 1 {
        "1"
    } else if d == 2 {
        "2"
    } else if d == 3 {
        "3"
    } else if d == 4 {
        "4"
    } else if d == 5 {
        "5"
    } else if d == 6 {
        "6"
    } else if d == 7 {
        "7"
    } else if d == 8 {
        "8"
    } else {
        "9"
    }
}

/// The decimal numeral of `n`.
pub fn decimal_text(n: u64) -> (r: String)
    ensures
        r@ == decimal(n as nat),
    decreases n,
{
    if n < 10 {
        digit_text(n).to_string()
    } else {
        let mut r = decimal_text(n / 10);
        r.append(digit_text(n % 10));
        assert(r@ =~= decimal(n as nat));
        r
    }
}

/// The views of optional texts and of outcomes keep the texts, and which case it
/// is.
pub proof fn texts_are_taken_as_they_are<A>(
    o: Option<String>,
    r: Result<A, String>,
    a: Result<String, String>,
)
    ensures
        optional_text(o) is Some <==> o is Some,
        o is Some ==> optional_text(o)->0 == o->0@,
        outcome_text(r) is Ok <==> r is Ok,
        r is Ok ==> outcome_text(r)->Ok_0 == r->Ok_0,
        r is Err ==> outcome_text(r)->Err_0 == r->Err_0@,
        reply_text(a) is Ok <==> a is Ok,
        a is Ok ==> reply_text(a)->Ok_0 == a->Ok_0@,
        a is Err ==> reply_text(a)->Err_0 == a->Err_0@,
{
}

} // verus!
