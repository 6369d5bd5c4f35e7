//! The line by which a starting kernel announces its port.

use vstd::prelude::*;

use crate::text;

verus! {

/// What the kernel prints in front of its port once its server is bound.
pub const READY_PREFIX: &'static str = "dsh web: http://127.0.0.1:";

/// `pattern` stands in `s` at position `i`.
pub open spec fn occurs_at(s: Seq<char>, pattern: Seq<char>, i: int) -> bool {
    0 <= i && i + pattern.len() <= s.len() && s.subrange(i, i + pattern.len()) == pattern
}

/// `i` is the leftmost position of `pattern` in `s`.
pub open spec fn occurs_first_at(s: Seq<char>, pattern: Seq<char>, i: int) -> bool {
    occurs_at(s, pattern, i) && forall|j: int| #[trigger] occurs_at(s, pattern, j) ==> i <= j
}

/// The longest prefix of `s` that is made of digits.
pub open spec fn leading_digits(s: Seq<char>) -> Seq<char>
    decreases s.len(),
{
    if s.len() > 0 && text::is_digit(s.first()) {
        seq![s.first()] + leading_digits(s.drop_first())
    } else {
        Seq::empty()
    }
}

/// The port that a run of digits names, if it names one.
pub open spec fn port_named(digits: Seq<char>) -> Option<u16> {
    if 0 < digits.len() && text::decimal_value(digits) <= u16::MAX {
        Some(text::decimal_value(digits) as u16)
    } else {
        None
    }
}

/// The port that `line` announces: the digits right behind the leftmost
/// readiness prefix.
pub open spec fn announced_port(line: Seq<char>) -> Option<u16> {
    if exists|i: int| occurs_first_at(line, READY_PREFIX@, i) {
        let i = choose|i: int| occurs_first_at(line, READY_PREFIX@, i);
        port_named(leading_digits(line.skip(i + READY_PREFIX@.len())))
    } else {
        None
    }
}

/// The leftmost position of `pattern` in `s`.
fn find(s: &Vec<char>, pattern: &Vec<char>) -> (r: Option<usize>)
    ensures
        match r {
            Some(i) => occurs_first_at(s@, pattern@, i as int),
            None => forall|i: int| !occurs_at(s@, pattern@, i),
        },
{
    if pattern.len() > s.len() {
        return None;
    }
    let last: usize = s.len() - pattern.len();
    let mut i: usize = 0;
    while i <= last
        invariant
            i <= last + 1,
            last == s@.len() - pattern@.len(),
            s@.len() <= usize::MAX,
            forall|j: int| j < i ==> !occurs_at(s@, pattern@, j),
        decreases last + 1 - i,
    {
        let mut k: usize = 0;
        while k < pattern.len() && s[i + k] == pattern[k]
            invariant
                k <= pattern@.len(),
                i + pattern@.len() <= s@.len(),
                s@.len() <= usize::MAX,
                forall|m: int| 0 <= m < k ==> s@[i + m] == pattern@[m],
            decreases pattern@.len() - k,
        {
            k = k + 1;
        }
        if k == pattern.len() {
            assert(s@.subrange(i as int, i + pattern@.len()) =~= pattern@);
            return Some(i);
        }
        assert(!occurs_at(s@, pattern@, i as int)) by {
            if occurs_at(s@, pattern@, i as int) {
                assert(s@.subrange(i as int, i + pattern@.len())[k as int] == pattern@[k as int]);
            }
        }
        if i == last {
            return None;
        }
        i = i + 1;
    }
    None
}

/// The leading digits of `s` are its first `n` characters if those are all
/// digits and the next one is not.
proof fn lemma_leading_digits(s: Seq<char>, n: int)
    requires
        0 <= n <= s.len(),
        text::all_digits(s.take(n)),
        n < s.len() ==> !text::is_digit(s[n]),
    ensures
        leading_digits(s) == s.take(n),
    decreases n,
{
    if n == 0 {
        assert(s.take(0) =~= Seq::empty());
    } else {
        let rest = s.drop_first();
        assert(s.take(n)[0] == s[0]);
        assert(rest.take(n - 1) =~= s.take(n).drop_first());
        assert forall|i: int| 0 <= i < n - 1 implies text::is_digit(#[trigger] rest.take(n - 1)[i]) by {
            assert(rest.take(n - 1)[i] == s.take(n)[i + 1]);
        }
        lemma_leading_digits(rest, n - 1);
        assert(s.take(n) =~= seq![s.first()] + rest.take(n - 1));
    }
}

/// Reads the port that the leading digits of `s[from..]` name.
fn read_port(s: &Vec<char>, from: usize) -> (r: Option<u16>)
    requires
        from <= s@.len(),
    ensures
        r == port_named(leading_digits(s@.skip(from as int))),
{
    let ghost rest = s@.skip(from as int);
    let mut i: usize = from;
    let mut value: u32 = 0;
    let mut fits: bool = true;
    while i < s.len() && '0' <= s[i] && s[i] <= '9'
        invariant
            from <= i <= s@.len(),
            rest == s@.skip(from as int),
            text::all_digits(rest.take(i - from)),
            fits ==> value == text::decimal_value(rest.take(i - from)) && value <= u16::MAX,
            !fits ==> text::decimal_value(rest.take(i - from)) > u16::MAX,
        decreases s@.len() - i,
    {
        let d: u32 = s[i] as u32 - '0' as u32;
        proof {
            let shorter = rest.take(i - from);
            let longer = rest.take(i + 1 - from);
            assert(longer.drop_last() =~= shorter);
            assert(longer.last() == s@[i as int]);
            assert forall|m: int| 0 <= m < longer.len() implies text::is_digit(#[trigger] longer[m]) by {
                if m < shorter.len() {
                    assert(longer[m] == shorter[m]);
                }
            }
        }
        if fits {
            value = 10 * value + d;
            if value > 65535 {
                fits = false;
            }
        }
        i = i + 1;
    }
    proof {
        assert(i < s@.len() ==> rest[i - from] == s@[i as int]);
        lemma_leading_digits(rest, i - from);
    }
    if i > from && fits {
        Some(value as u16)
    } else {
        None
    }
}

/// Parses the readiness line that the kernel prints once its HTTP server is
/// bound: `dsh web: http://127.0.0.1:51315 (LAN: ...)`.
pub fn extract_port(line: &str) -> (r: Option<u16>)
    ensures
        r == announced_port(line@),
{
    let chars = text::chars_of(line);
    let prefix = text::chars_of(READY_PREFIX);
    match find(&chars, &prefix) {
        Some(i) => {
            proof {
                lemma_first_occurrence_is_unique(line@, READY_PREFIX@, i as int);
                assert(i + prefix@.len() <= chars.len());
            }
            read_port(&chars, i + prefix.len())
        },
        None => None,
    }
}

proof fn lemma_first_occurrence_is_unique(s: Seq<char>, pattern: Seq<char>, i: int)
    requires
        occurs_first_at(s, pattern, i),
    ensures
        (choose|j: int| occurs_first_at(s, pattern, j)) == i,
{
    let j = choose|j: int| occurs_first_at(s, pattern, j);
    assert(occurs_first_at(s, pattern, j));
    assert(occurs_at(s, pattern, j));
    assert(occurs_at(s, pattern, i));
}

/// Every port can be announced: whatever stands in front of the prefix (as
/// long as the prefix does not occur earlier) and behind the numeral (as long
/// as it does not go on with a digit), the announced port is read back.
pub proof fn announced_port_is_read_back(head: Seq<char>, port: u16, tail: Seq<char>)
    requires
        forall|i: int|
            i < head.len() ==> !#[trigger] occurs_at(
                head + READY_PREFIX@ + text::decimal(port as nat) + tail,
                READY_PREFIX@,
                i,
            ),
        tail.len() > 0 ==> !text::is_digit(tail.first()),
    ensures
        announced_port(head + READY_PREFIX@ + text::decimal(port as nat) + tail) == Some(port),
{
    let numeral = text::decimal(port as nat);
    let line = head + READY_PREFIX@ + numeral + tail;
    let i = head.len() as int;
    let n = READY_PREFIX@.len() as int;
    assert(line.subrange(i, i + n) =~= READY_PREFIX@);
    assert(occurs_at(line, READY_PREFIX@, i));
    assert(occurs_first_at(line, READY_PREFIX@, i));
    lemma_first_occurrence_is_unique(line, READY_PREFIX@, i);
    text::decimal_reads_back(port as nat);
    let rest = line.skip(i + n);
    assert(rest =~= numeral + tail);
    assert(rest.take(numeral.len() as int) =~= numeral);
    lemma_leading_digits(rest, numeral.len() as int);
}

/// A line in which the readiness prefix occurs nowhere announces no port.
pub proof fn no_prefix_announces_nothing(line: Seq<char>)
    requires
        forall|i: int|
            0 <= i && i + "dsh web: http://127.0.0.1:"@.len() <= line.len()
                ==> #[trigger] line.subrange(i, i + "dsh web: http://127.0.0.1:"@.len())
                != "dsh web: http://127.0.0.1:"@,
    ensures
        announced_port(line) is None,
{
    assert forall|i: int| !occurs_first_at(line, READY_PREFIX@, i) by {
        if occurs_at(line, READY_PREFIX@, i) {
            assert(line.subrange(i, i + READY_PREFIX@.len()) == READY_PREFIX@);
        }
    }
}

/// The announced port is the number that follows the first readiness prefix: if
/// the prefix stands first at `i`, and `n` digits and no more follow it, the line
/// announces the number that they write, provided that there are digits and that
/// the number is at most 65535; otherwise it announces nothing.
pub proof fn the_port_follows_the_first_prefix(line: Seq<char>, i: int, n: int)
    requires
        ({
            let start = i + "dsh web: http://127.0.0.1:"@.len();
            &&& 0 <= i
            &&& 0 <= n
            &&& start + n <= line.len()
            &&& line.subrange(i, start) == "dsh web: http://127.0.0.1:"@
            &&& forall|j: int|
                0 <= j < i ==> #[trigger] line.subrange(
                    j,
                    j + "dsh web: http://127.0.0.1:"@.len(),
                ) != "dsh web: http://127.0.0.1:"@
            &&& forall|k: int| start <= k < start + n ==> '0' <= #[trigger] line[k] <= '9'
            &&& start + n < line.len() ==> !('0' <= line[start + n] <= '9')
        }),
    ensures
        ({
            let start = i + "dsh web: http://127.0.0.1:"@.len();
            let value = text::decimal_value(line.subrange(start, start + n));
            announced_port(line) == (if n > 0 && value <= 65535 {
                Some(value as u16)
            } else {
                None
            })
        }),
{
    let start = i + READY_PREFIX@.len();
    assert(occurs_at(line, READY_PREFIX@, i));
    assert forall|j: int| #[trigger] occurs_at(line, READY_PREFIX@, j) implies i <= j by {
        assert(line.subrange(j, j + READY_PREFIX@.len()) == READY_PREFIX@);
    }
    assert(occurs_first_at(line, READY_PREFIX@, i));
    lemma_first_occurrence_is_unique(line, READY_PREFIX@, i);
    let rest = line.skip(start);
    assert(rest.take(n) =~= line.subrange(start, start + n));
    assert forall|k: int| 0 <= k < n implies text::is_digit(#[trigger] rest.take(n)[k]) by {
        assert(rest.take(n)[k] == line[start + k]);
    }
    assert(n < rest.len() ==> rest[n] == line[start + n]);
    lemma_leading_digits(rest, n);
}

} // verus!
