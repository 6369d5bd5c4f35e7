//! Version numbers and which of two is the newer.
//!
//! A version is made of dotted numbers, optionally followed by a hyphen and a
//! dotted pre-release, optionally followed by a plus sign and build metadata,
//! which do not count. Versions are ordered by their numbers, component by
//! component, then by their pre-release; a release comes after its pre-releases.

use vstd::prelude::*;

use crate::text;

verus! {

/// `s` up to, and without, the first `mark`.
pub open spec fn before(s: Seq<char>, mark: char) -> Seq<char>
    decreases s.len(),
{
    if s.len() == 0 || s.first() == mark {
        Seq::empty()
    } else {
        seq![s.first()] + before(s.drop_first(), mark)
    }
}

/// What follows the first `mark` in `s`; nothing if there is none.
pub open spec fn behind(s: Seq<char>, mark: char) -> Seq<char> {
    if s.contains(mark) {
        s.skip(before(s, mark).len() as int + 1)
    } else {
        Seq::empty()
    }
}

/// The pieces of `s` between its dots.
pub open spec fn pieces(s: Seq<char>) -> Seq<Seq<char>>
    decreases s.len(),
{
    if s.len() == 0 {
        seq![Seq::empty()]
    } else {
        let earlier = pieces(s.drop_last());
        if s.last() == '.' {
            earlier.push(Seq::empty())
        } else {
            earlier.drop_last().push(earlier.last().push(s.last()))
        }
    }
}

/// The number that `s` writes in decimal, if it does and the number fits.
pub open spec fn number_in(s: Seq<char>) -> Option<u64> {
    if s.len() > 0 && text::all_digits(s) && text::decimal_value(s) <= u64::MAX {
        Some(text::decimal_value(s) as u64)
    } else {
        None
    }
}

/// A component of a pre-release.
#[derive(PartialEq, Eq, Debug)]
pub enum Part<T> {
    Number(u64),
    Word(T),
}

/// The component that `s` writes: a number if it is made of digits, otherwise a
/// word; an empty one, or a number that does not fit, is none.
pub open spec fn part_in(s: Seq<char>) -> Option<Part<Seq<char>>> {
    if s.len() == 0 {
        None
    } else if text::all_digits(s) {
        match number_in(s) {
            Some(n) => Some(Part::Number(n)),
            None => None,
        }
    } else {
        Some(Part::Word(s))
    }
}

/// The mathematical content of a version. A release has an empty pre-release.
pub struct VersionModel {
    pub numbers: Seq<u64>,
    pub pre: Seq<Part<Seq<char>>>,
}

pub open spec fn all_numbers(p: Seq<Seq<char>>) -> bool {
    forall|i: int| 0 <= i < p.len() ==> number_in(#[trigger] p[i]) is Some
}

pub open spec fn all_parts(p: Seq<Seq<char>>) -> bool {
    forall|i: int| 0 <= i < p.len() ==> part_in(#[trigger] p[i]) is Some
}

/// The text of the numbers of a version, and that of its pre-release.
pub open spec fn numbers_text(s: Seq<char>) -> Seq<char> {
    before(before(s, '+'), '-')
}

pub open spec fn pre_text(s: Seq<char>) -> Seq<char> {
    behind(before(s, '+'), '-')
}

pub open spec fn has_pre(s: Seq<char>) -> bool {
    before(s, '+').contains('-')
}

/// The version that `s` writes, if it writes one.
pub open spec fn version_in(s: Seq<char>) -> Option<VersionModel> {
    let numbers = pieces(numbers_text(s));
    let pre = if has_pre(s) {
        pieces(pre_text(s))
    } else {
        Seq::empty()
    };
    if all_numbers(numbers) && all_parts(pre) {
        Some(
            VersionModel {
                numbers: numbers.map_values(|p: Seq<char>| number_in(p)->0),
                pre: pre.map_values(|p: Seq<char>| part_in(p)->0),
            },
        )
    } else {
        None
    }
}

/// The `i`-th number of a version; those that are not written count as zero.
pub open spec fn number_at(numbers: Seq<u64>, i: int) -> u64 {
    if 0 <= i < numbers.len() {
        numbers[i]
    } else {
        0
    }
}

/// The first number in which `a` and `b` differ is the `i`-th, and it is greater
/// in `a`.
pub open spec fn numbers_part_at(a: Seq<u64>, b: Seq<u64>, i: int) -> bool {
    &&& 0 <= i
    &&& forall|j: int| 0 <= j < i ==> #[trigger] number_at(a, j) == number_at(b, j)
    &&& number_at(a, i) > number_at(b, i)
}

pub open spec fn numbers_above(a: Seq<u64>, b: Seq<u64>) -> bool {
    exists|i: int| numbers_part_at(a, b, i)
}

pub open spec fn numbers_equal(a: Seq<u64>, b: Seq<u64>) -> bool {
    forall|j: int| 0 <= j ==> #[trigger] number_at(a, j) == number_at(b, j)
}

/// `a` and `b` are the same before position `i`, where `a` goes on with a greater
/// character, or goes on while `b` has ended.
pub open spec fn words_part_at(a: Seq<char>, b: Seq<char>, i: int) -> bool {
    &&& 0 <= i < a.len()
    &&& i <= b.len()
    &&& forall|j: int| 0 <= j < i ==> #[trigger] a[j] == b[j]
    &&& i < b.len() ==> a[i] > b[i]
}

/// `a` comes after `b` in the order of characters.
pub open spec fn word_above(a: Seq<char>, b: Seq<char>) -> bool {
    exists|i: int| words_part_at(a, b, i)
}

/// `a` comes after `b`: numbers in their order, words in theirs, and words after
/// numbers.
pub open spec fn part_above(a: Part<Seq<char>>, b: Part<Seq<char>>) -> bool {
    match (a, b) {
        (Part::Number(x), Part::Number(y)) => x > y,
        (Part::Word(x), Part::Word(y)) => word_above(x, y),
        (Part::Word(_), Part::Number(_)) => true,
        (Part::Number(_), Part::Word(_)) => false,
    }
}

/// `a` and `b` are the same before component `i`, where `a` goes on with a later
/// component, or goes on while `b` has ended.
pub open spec fn parts_part_at(
    a: Seq<Part<Seq<char>>>,
    b: Seq<Part<Seq<char>>>,
    i: int,
) -> bool {
    &&& 0 <= i < a.len()
    &&& i <= b.len()
    &&& forall|j: int| 0 <= j < i ==> #[trigger] a[j] == b[j]
    &&& i < b.len() ==> part_above(a[i], b[i])
}

/// The pre-release `a` comes after the pre-release `b`; being no pre-release
/// comes last.
pub open spec fn pre_above(a: Seq<Part<Seq<char>>>, b: Seq<Part<Seq<char>>>) -> bool {
    if a.len() == 0 || b.len() == 0 {
        a.len() == 0 && b.len() > 0
    } else {
        exists|i: int| parts_part_at(a, b, i)
    }
}

/// Version `a` comes after version `b`.
pub open spec fn version_above(a: VersionModel, b: VersionModel) -> bool {
    numbers_above(a.numbers, b.numbers) || (numbers_equal(a.numbers, b.numbers) && pre_above(
        a.pre,
        b.pre,
    ))
}

/// `latest` is a newer version than `current`. Text that is no version, such as
/// "unknown", comes before every version and after nothing.
pub open spec fn is_newer(latest: Seq<char>, current: Seq<char>) -> bool {
    match (version_in(latest), version_in(current)) {
        (Some(a), Some(b)) => version_above(a, b),
        (Some(_), None) => true,
        (None, _) => false,
    }
}

/// `latest` is to replace `current`: it is newer, or it is no version, so that it
/// cannot be ordered, and differs.
pub open spec fn is_due(latest: Seq<char>, current: Seq<char>) -> bool {
    if version_in(latest) is Some {
        is_newer(latest, current)
    } else {
        latest != current
    }
}

proof fn lemma_before(s: Seq<char>, mark: char, n: int)
    requires
        0 <= n <= s.len(),
        forall|i: int| 0 <= i < n ==> #[trigger] s[i] != mark,
        n < s.len() ==> s[n] == mark,
    ensures
        before(s, mark) == s.take(n),
        s.contains(mark) == (n < s.len()),
    decreases n,
{
    if n == 0 {
        assert(s.take(0) =~= Seq::empty());
        if s.len() > 0 {
            assert(s[0] == mark);
        }
    } else {
        let rest = s.drop_first();
        assert forall|i: int| 0 <= i < n - 1 implies #[trigger] rest[i] != mark by {
            assert(rest[i] == s[i + 1]);
        }
        lemma_before(rest, mark, n - 1);
        assert(s.take(n) =~= seq![s.first()] + rest.take(n - 1));
        if n < s.len() {
            assert(s[n] == mark);
        }
    }
}

/// Where the first `mark` in `s` stands; the length of `s` if there is none.
fn position(s: &Vec<char>, mark: char) -> (r: usize)
    ensures
        r <= s@.len(),
        before(s@, mark) == s@.take(r as int),
        s@.contains(mark) == (r < s@.len()),
{
    let mut i: usize = 0;
    while i < s.len() && s[i] != mark
        invariant
            i <= s@.len(),
            forall|j: int| 0 <= j < i ==> #[trigger] s@[j] != mark,
        decreases s@.len() - i,
    {
        i = i + 1;
    }
    proof {
        lemma_before(s@, mark, i as int);
    }
    i
}

/// `s[from..to]`.
fn slice(s: &Vec<char>, from: usize, to: usize) -> (r: Vec<char>)
    requires
        from <= to <= s@.len(),
    ensures
        r@ == s@.subrange(from as int, to as int),
{
    let mut r: Vec<char> = Vec::new();
    let mut i: usize = from;
    while i < to
        invariant
            from <= i <= to <= s@.len(),
            r@ == s@.subrange(from as int, i as int),
        decreases to - i,
    {
        r.push(s[i]);
        i = i + 1;
        assert(r@ =~= s@.subrange(from as int, i as int));
    }
    r
}

/// The number that `s` writes in decimal.
fn read_number(s: &Vec<char>) -> (r: Option<u64>)
    ensures
        r == number_in(s@),
{
    if s.len() == 0 {
        return None;
    }
    let mut value: u64 = 0;
    let mut fits: bool = true;
    let mut i: usize = 0;
    while i < s.len()
        invariant
            i <= s@.len(),
            text::all_digits(s@.take(i as int)),
            fits ==> value == text::decimal_value(s@.take(i as int)),
            !fits ==> text::decimal_value(s@.take(i as int)) > u64::MAX,
        decreases s@.len() - i,
    {
        let c: char = s[i];
        if !('0' <= c && c <= '9') {
            assert(!text::is_digit(s@[i as int]));
            return None;
        }
        let d: u64 = (c as u32 - '0' as u32) as u64;
        proof {
            let longer = s@.take(i + 1);
            assert(longer.drop_last() =~= s@.take(i as int));
            assert forall|m: int| 0 <= m < longer.len() implies text::is_digit(#[trigger] longer[m]) by {
                if m < i {
                    assert(longer[m] == s@.take(i as int)[m]);
                }
            }
        }
        if fits {
            if value > (u64::MAX - d) / 10 {
                fits = false;
            } else {
                value = 10 * value + d;
            }
        }
        i = i + 1;
    }
    assert(s@.take(i as int) =~= s@);
    if fits {
        Some(value)
    } else {
        None
    }
}

/// The texts of `p`.
pub open spec fn texts(p: Seq<Vec<char>>) -> Seq<Seq<char>> {
    p.map_values(|v: Vec<char>| v@)
}

/// The pieces of `s` between its dots.
fn split(s: &Vec<char>) -> (r: Vec<Vec<char>>)
    ensures
        texts(r@) == pieces(s@),
{
    let mut done: Vec<Vec<char>> = Vec::new();
    let mut last: Vec<char> = Vec::new();
    let mut i: usize = 0;
    assert(s@.take(0) =~= Seq::empty());
    assert(texts(done@).push(last@) =~= pieces(s@.take(0)));
    while i < s.len()
        invariant
            i <= s@.len(),
            texts(done@).push(last@) == pieces(s@.take(i as int)),
        decreases s@.len() - i,
    {
        let ghost earlier = texts(done@).push(last@);
        assert(s@.take(i + 1).drop_last() =~= s@.take(i as int));
        if s[i] == '.' {
            done.push(last);
            last = Vec::new();
            assert(texts(done@) =~= earlier);
            assert(texts(done@).push(last@) =~= pieces(s@.take(i + 1)));
        } else {
            last.push(s[i]);
            assert(earlier.drop_last() =~= texts(done@));
            assert(texts(done@).push(last@) =~= pieces(s@.take(i + 1)));
        }
        i = i + 1;
    }
    assert(s@.take(i as int) =~= s@);
    let ghost earlier = texts(done@);
    let ghost end = last@;
    done.push(last);
    assert(texts(done@) =~= earlier.push(end));
    done
}

impl Part<Vec<char>> {
    pub open spec fn view(self) -> Part<Seq<char>> {
        match self {
            Part::Number(n) => Part::Number(n),
            Part::Word(w) => Part::Word(w@),
        }
    }
}

/// The component that `s` writes.
fn read_part(s: Vec<char>) -> (r: Option<Part<Vec<char>>>)
    ensures
        (match r {
            Some(part) => Some(part@),
            None => None,
        }) == part_in(s@),
{
    if s.len() == 0 {
        return None;
    }
    let mut i: usize = 0;
    while i < s.len()
        invariant
            i <= s@.len(),
            s@.len() > 0,
            forall|j: int| 0 <= j < i ==> text::is_digit(#[trigger] s@[j]),
        decreases s@.len() - i,
    {
        if !('0' <= s[i] && s[i] <= '9') {
            assert(!text::is_digit(s@[i as int]));
            return Some(Part::Word(s));
        }
        i = i + 1;
    }
    match read_number(&s) {
        Some(n) => Some(Part::Number(n)),
        None => None,
    }
}

/// A version, read.
struct Version {
    numbers: Vec<u64>,
    pre: Vec<Part<Vec<char>>>,
}

/// The components of a pre-release.
spec fn part_models(p: Seq<Part<Vec<char>>>) -> Seq<Part<Seq<char>>> {
    p.map_values(|part: Part<Vec<char>>| part@)
}

impl Version {
    spec fn model(self) -> VersionModel {
        VersionModel { numbers: self.numbers@, pre: part_models(self.pre@) }
    }
}

/// The numbers that the pieces write.
fn read_numbers(p: &Vec<Vec<char>>) -> (r: Option<Vec<u64>>)
    ensures
        match r {
            Some(numbers) => all_numbers(texts(p@)) && numbers@ == texts(p@).map_values(
                |t: Seq<char>| number_in(t)->0,
            ),
            None => !all_numbers(texts(p@)),
        },
{
    let mut numbers: Vec<u64> = Vec::new();
    let mut i: usize = 0;
    while i < p.len()
        invariant
            i <= p@.len(),
            numbers@.len() == i,
            forall|j: int|
                0 <= j < i ==> number_in(#[trigger] texts(p@)[j]) == Some(numbers@[j]),
        decreases p@.len() - i,
    {
        match read_number(&p[i]) {
            Some(n) => {
                assert(texts(p@)[i as int] == p@[i as int]@);
                numbers.push(n);
            },
            None => {
                assert(number_in(texts(p@)[i as int]) is None);
                return None;
            },
        }
        i = i + 1;
    }
    assert(numbers@ =~= texts(p@).map_values(|t: Seq<char>| number_in(t)->0));
    Some(numbers)
}

/// The components that the pieces write.
fn read_parts(p: Vec<Vec<char>>) -> (r: Option<Vec<Part<Vec<char>>>>)
    ensures
        match r {
            Some(parts) => all_parts(texts(p@)) && part_models(parts@) == texts(p@).map_values(
                |t: Seq<char>| part_in(t)->0,
            ),
            None => !all_parts(texts(p@)),
        },
{
    let mut parts: Vec<Part<Vec<char>>> = Vec::new();
    let mut i: usize = 0;
    while i < p.len()
        invariant
            i <= p@.len(),
            parts@.len() == i,
            forall|j: int|
                0 <= j < i ==> part_in(#[trigger] texts(p@)[j]) == Some(parts@[j]@),
        decreases p@.len() - i,
    {
        let piece = slice(&p[i], 0, p[i].len());
        assert(piece@ =~= texts(p@)[i as int]);
        match read_part(piece) {
            Some(part) => {
                parts.push(part);
            },
            None => {
                assert(part_in(texts(p@)[i as int]) is None);
                return None;
            },
        }
        i = i + 1;
    }
    assert(part_models(parts@) =~= texts(p@).map_values(|t: Seq<char>| part_in(t)->0));
    Some(parts)
}

/// The version that `s` writes.
fn read_version(s: &str) -> (r: Option<Version>)
    ensures
        (match r {
            Some(version) => Some(version.model()),
            None => None,
        }) == version_in(s@),
{
    let chars = text::chars_of(s);
    let end = position(&chars, '+');
    let plain = slice(&chars, 0, end);
    assert(plain@ =~= before(s@, '+'));
    let hyphen = position(&plain, '-');
    let core = slice(&plain, 0, hyphen);
    assert(core@ =~= numbers_text(s@));
    let numbers = match read_numbers(&split(&core)) {
        Some(numbers) => numbers,
        None => {
            return None;
        },
    };
    if hyphen < plain.len() {
        let tail = slice(&plain, hyphen + 1, plain.len());
        assert(tail@ =~= pre_text(s@));
        match read_parts(split(&tail)) {
            Some(pre) => Some(Version { numbers, pre }),
            None => None,
        }
    } else {
        let pre: Vec<Part<Vec<char>>> = Vec::new();
        let r = Version { numbers, pre };
        assert(part_models(pre@) =~= Seq::<Seq<char>>::empty().map_values(
            |t: Seq<char>| part_in(t)->0,
        ));
        Some(r)
    }
}

/// Where one value stands with respect to another.
#[derive(Clone, Copy, PartialEq, Eq, Structural)]
enum Side {
    Above,
    Same,
    Below,
}

fn number_of(numbers: &Vec<u64>, i: usize) -> (r: u64)
    ensures
        r == number_at(numbers@, i as int),
{
    if i < numbers.len() {
        numbers[i]
    } else {
        0
    }
}

fn numbers_side(a: &Vec<u64>, b: &Vec<u64>) -> (r: Side)
    ensures
        r == Side::Above <==> numbers_above(a@, b@),
        r == Side::Same <==> numbers_equal(a@, b@),
{
    let n: usize = if a.len() < b.len() {
        b.len()
    } else {
        a.len()
    };
    let mut i: usize = 0;
    while i < n
        invariant
            i <= n,
            a@.len() <= n,
            b@.len() <= n,
            forall|j: int| 0 <= j < i ==> #[trigger] number_at(a@, j) == number_at(b@, j),
        decreases n - i,
    {
        let x: u64 = number_of(a, i);
        let y: u64 = number_of(b, i);
        if x != y {
            assert(number_at(a@, i as int) != number_at(b@, i as int));
            if x > y {
                assert(numbers_part_at(a@, b@, i as int));
                return Side::Above;
            }
            assert forall|k: int| !numbers_part_at(a@, b@, k) by {
                if k > i {
                    assert(number_at(a@, i as int) != number_at(b@, i as int));
                }
            }
            return Side::Below;
        }
        i = i + 1;
    }
    assert forall|j: int| 0 <= j implies #[trigger] number_at(a@, j) == number_at(b@, j) by {}
    assert forall|k: int| !numbers_part_at(a@, b@, k) by {
        if 0 <= k {
            assert(number_at(a@, k) == number_at(b@, k));
        }
    }
    Side::Same
}

fn word_side(a: &Vec<char>, b: &Vec<char>) -> (r: Side)
    ensures
        r == Side::Above <==> word_above(a@, b@),
        r == Side::Same <==> a@ == b@,
{
    let mut i: usize = 0;
    while i < a.len() && i < b.len()
        invariant
            i <= a@.len(),
            i <= b@.len(),
            forall|j: int| 0 <= j < i ==> #[trigger] a@[j] == b@[j],
        decreases a@.len() - i,
    {
        if a[i] != b[i] {
            assert(a@[i as int] != b@[i as int]);
            if a[i] > b[i] {
                assert(words_part_at(a@, b@, i as int));
                return Side::Above;
            }
            assert forall|k: int| !words_part_at(a@, b@, k) by {
                if k > i {
                    assert(a@[i as int] != b@[i as int]);
                }
            }
            return Side::Below;
        }
        i = i + 1;
    }
    if i < a.len() {
        assert(words_part_at(a@, b@, i as int));
        return Side::Above;
    }
    assert forall|k: int| !words_part_at(a@, b@, k) by {
        if 0 <= k < a@.len() {
            assert(a@[k] == b@[k]);
        }
    }
    if i < b.len() {
        Side::Below
    } else {
        assert(a@ =~= b@);
        Side::Same
    }
}

fn part_side(a: &Part<Vec<char>>, b: &Part<Vec<char>>) -> (r: Side)
    ensures
        r == Side::Above <==> part_above(a@, b@),
        r == Side::Same <==> a@ == b@,
{
    match a {
        Part::Number(x) => match b {
            Part::Number(y) => if *x > *y {
                Side::Above
            } else if *x == *y {
                Side::Same
            } else {
                Side::Below
            },
            Part::Word(_) => Side::Below,
        },
        Part::Word(x) => match b {
            Part::Number(_) => Side::Above,
            Part::Word(y) => word_side(x, y),
        },
    }
}

/// No component comes after itself.
proof fn lemma_part_above_is_strict(a: Part<Seq<char>>)
    ensures
        !part_above(a, a),
{
}

fn is_pre_above(a: &Vec<Part<Vec<char>>>, b: &Vec<Part<Vec<char>>>) -> (r: bool)
    ensures
        r == pre_above(part_models(a@), part_models(b@)),
{
    let ghost x = part_models(a@);
    let ghost y = part_models(b@);
    if a.len() == 0 || b.len() == 0 {
        return a.len() == 0 && b.len() > 0;
    }
    let mut i: usize = 0;
    while i < a.len() && i < b.len()
        invariant
            x == part_models(a@),
            y == part_models(b@),
            a@.len() > 0,
            b@.len() > 0,
            i <= a@.len(),
            i <= b@.len(),
            forall|j: int| 0 <= j < i ==> #[trigger] x[j] == y[j],
        decreases a@.len() - i,
    {
        assert(x[i as int] == a@[i as int]@);
        assert(y[i as int] == b@[i as int]@);
        match part_side(&a[i], &b[i]) {
            Side::Above => {
                assert(parts_part_at(x, y, i as int));
                return true;
            },
            Side::Below => {
                assert(x[i as int] != y[i as int]);
                assert forall|k: int| !parts_part_at(x, y, k) by {
                    if k > i {
                        assert(x[i as int] != y[i as int]);
                    }
                    if k < i {
                        lemma_part_above_is_strict(x[k]);
                    }
                }
                return false;
            },
            Side::Same => {},
        }
        i = i + 1;
    }
    if i < a.len() {
        assert(parts_part_at(x, y, i as int));
        true
    } else {
        assert forall|k: int| !parts_part_at(x, y, k) by {
            if 0 <= k < x.len() {
                lemma_part_above_is_strict(x[k]);
                assert(x[k] == y[k]);
            }
        }
        false
    }
}

/// Whether `latest` is a newer version than `current`.
pub fn newer(latest: &str, current: &str) -> (r: bool)
    ensures
        r == is_newer(latest@, current@),
{
    match read_version(latest) {
        None => false,
        Some(a) => match read_version(current) {
            None => true,
            Some(b) => match numbers_side(&a.numbers, &b.numbers) {
                Side::Above => true,
                Side::Same => is_pre_above(&a.pre, &b.pre),
                Side::Below => false,
            },
        },
    }
}

/// Whether `latest` is to replace `current`.
pub fn update_due(latest: &str, current: &str) -> (r: bool)
    ensures
        r == is_due(latest@, current@),
{
    if read_version(latest).is_some() {
        newer(latest, current)
    } else {
        !text::same_text(latest, current)
    }
}

proof fn lemma_numbers_transitive(a: Seq<u64>, b: Seq<u64>, c: Seq<u64>)
    requires
        numbers_above(a, b) || numbers_equal(a, b),
        numbers_above(b, c) || numbers_equal(b, c),
    ensures
        numbers_above(a, b) || numbers_above(b, c) ==> numbers_above(a, c),
        numbers_equal(a, b) && numbers_equal(b, c) ==> numbers_equal(a, c),
{
    if numbers_above(a, b) && numbers_above(b, c) {
        let i = choose|i: int| numbers_part_at(a, b, i);
        let j = choose|j: int| numbers_part_at(b, c, j);
        let k = if i < j { i } else { j };
        assert forall|m: int| 0 <= m < k implies #[trigger] number_at(a, m) == number_at(c, m) by {
            assert(number_at(b, m) == number_at(c, m));
        }
        assert(number_at(b, k) == number_at(b, k));
        assert(numbers_part_at(a, c, k));
    } else if numbers_above(a, b) {
        let i = choose|i: int| numbers_part_at(a, b, i);
        assert forall|m: int| 0 <= m < i implies #[trigger] number_at(a, m) == number_at(c, m) by {
            assert(number_at(b, m) == number_at(c, m));
        }
        assert(number_at(b, i) == number_at(c, i));
        assert(numbers_part_at(a, c, i));
    } else if numbers_above(b, c) {
        let i = choose|i: int| numbers_part_at(b, c, i);
        assert forall|m: int| 0 <= m < i implies #[trigger] number_at(a, m) == number_at(c, m) by {
            assert(number_at(b, m) == number_at(c, m));
        }
        assert(number_at(a, i) == number_at(b, i));
        assert(numbers_part_at(a, c, i));
    } else {
        assert forall|m: int| 0 <= m implies #[trigger] number_at(a, m) == number_at(c, m) by {
            assert(number_at(b, m) == number_at(c, m));
        }
    }
}

proof fn lemma_numbers_strict(a: Seq<u64>, b: Seq<u64>)
    requires
        numbers_above(a, b),
    ensures
        !numbers_equal(a, b),
        !numbers_equal(b, a),
        !numbers_above(b, a),
{
    let i = choose|i: int| numbers_part_at(a, b, i);
    assert(number_at(a, i) != number_at(b, i));
    assert(number_at(b, i) != number_at(a, i));
    if numbers_above(b, a) {
        let j = choose|j: int| numbers_part_at(b, a, j);
        assert(number_at(b, j) != number_at(a, j));
        assert(number_at(a, j) != number_at(b, j));
    }
}

proof fn lemma_word_transitive(a: Seq<char>, b: Seq<char>, c: Seq<char>)
    requires
        word_above(a, b),
        word_above(b, c),
    ensures
        word_above(a, c),
{
    let i = choose|i: int| words_part_at(a, b, i);
    let j = choose|j: int| words_part_at(b, c, j);
    let k = if i < j { i } else { j };
    assert forall|m: int| 0 <= m < k implies #[trigger] a[m] == c[m] by {
        assert(b[m] == c[m]);
    }
    if j < i {
        assert(a[j] == b[j]);
    } else if i < j {
        assert(b[i] == c[i]);
    }
    assert(words_part_at(a, c, k));
}

proof fn lemma_part_transitive(a: Part<Seq<char>>, b: Part<Seq<char>>, c: Part<Seq<char>>)
    requires
        part_above(a, b),
        part_above(b, c),
    ensures
        part_above(a, c),
{
    match (a, b, c) {
        (Part::Word(x), Part::Word(y), Part::Word(z)) => {
            lemma_word_transitive(x, y, z);
        },
        _ => {},
    }
}

proof fn lemma_pre_transitive(
    a: Seq<Part<Seq<char>>>,
    b: Seq<Part<Seq<char>>>,
    c: Seq<Part<Seq<char>>>,
)
    requires
        pre_above(a, b),
        pre_above(b, c),
    ensures
        pre_above(a, c),
{
    if a.len() > 0 {
        let i = choose|i: int| parts_part_at(a, b, i);
        let j = choose|j: int| parts_part_at(b, c, j);
        let k = if i < j { i } else { j };
        assert forall|m: int| 0 <= m < k implies #[trigger] a[m] == c[m] by {
            assert(b[m] == c[m]);
        }
        if j < i {
            assert(a[j] == b[j]);
        } else if i < j {
            assert(b[i] == c[i]);
        } else if i < c.len() {
            lemma_part_transitive(a[i], b[i], c[i]);
        }
        assert(parts_part_at(a, c, k));
    }
}

proof fn lemma_pre_irreflexive(a: Seq<Part<Seq<char>>>)
    ensures
        !pre_above(a, a),
{
    assert forall|k: int| !parts_part_at(a, a, k) by {
        lemma_part_above_is_strict(a[k]);
    }
}

/// No version is newer than itself.
pub proof fn no_version_is_newer_than_itself(version: Seq<char>)
    ensures
        !is_newer(version, version),
{
    if let Some(v) = version_in(version) {
        if numbers_above(v.numbers, v.numbers) {
            lemma_numbers_strict(v.numbers, v.numbers);
        }
        lemma_pre_irreflexive(v.pre);
    }
}

/// Nothing is to replace itself.
pub proof fn no_version_replaces_itself(version: Seq<char>)
    ensures
        !is_due(version, version),
{
    no_version_is_newer_than_itself(version);
}

/// What is newer than a newer version is newer.
pub proof fn newer_is_transitive(a: Seq<char>, b: Seq<char>, c: Seq<char>)
    requires
        is_newer(a, b),
        is_newer(b, c),
    ensures
        is_newer(a, c),
{
    if version_in(c) is Some {
        let x = version_in(a)->0;
        let y = version_in(b)->0;
        let z = version_in(c)->0;
        lemma_numbers_transitive(x.numbers, y.numbers, z.numbers);
        if numbers_equal(x.numbers, y.numbers) && numbers_equal(y.numbers, z.numbers) {
            if numbers_above(x.numbers, y.numbers) {
                lemma_numbers_strict(x.numbers, y.numbers);
            }
            if numbers_above(y.numbers, z.numbers) {
                lemma_numbers_strict(y.numbers, z.numbers);
            }
            lemma_pre_transitive(x.pre, y.pre, z.pre);
        }
    }
}

/// Of two versions at most one is newer than the other, so that updates never
/// lead back.
pub proof fn newer_goes_one_way(a: Seq<char>, b: Seq<char>)
    requires
        is_newer(a, b),
    ensures
        !is_newer(b, a),
{
    if is_newer(b, a) {
        newer_is_transitive(a, b, a);
        no_version_is_newer_than_itself(a);
    }
}

/// The pieces with dots between them.
pub open spec fn dotted(p: Seq<Seq<char>>) -> Seq<char>
    decreases p.len(),
{
    if p.len() == 0 {
        Seq::empty()
    } else if p.len() == 1 {
        p[0]
    } else {
        dotted(p.drop_last()).push('.') + p.last()
    }
}

/// A version written out: its numbers, its pre-release if it has one, and its
/// build metadata if it has any.
pub open spec fn written(
    numbers: Seq<Seq<char>>,
    pre: Seq<Seq<char>>,
    build: Option<Seq<char>>,
) -> Seq<char> {
    let core = dotted(numbers);
    let plain = if pre.len() > 0 {
        core.push('-') + dotted(pre)
    } else {
        core
    };
    match build {
        Some(metadata) => plain.push('+') + metadata,
        None => plain,
    }
}

/// None of the texts holds `mark`.
pub open spec fn none_holds(p: Seq<Seq<char>>, mark: char) -> bool {
    forall|i: int| 0 <= i < p.len() ==> !(#[trigger] p[i]).contains(mark)
}

proof fn lemma_one_piece(w: Seq<char>)
    requires
        !w.contains('.'),
    ensures
        pieces(w) == seq![w],
    decreases w.len(),
{
    if w.len() > 0 {
        let shorter = w.drop_last();
        assert forall|i: int| 0 <= i < shorter.len() implies shorter[i] != '.' by {
            assert(w[i] != '.');
        }
        lemma_one_piece(shorter);
        assert(w[w.len() - 1] != '.');
        assert(shorter.push(w.last()) =~= w);
        assert(pieces(w) =~= seq![w]);
    } else {
        assert(w =~= Seq::empty());
    }
}

proof fn lemma_one_more_piece(s: Seq<char>, w: Seq<char>)
    requires
        !w.contains('.'),
    ensures
        pieces(s.push('.') + w) == pieces(s).push(w),
    decreases w.len(),
{
    let all = s.push('.') + w;
    if w.len() == 0 {
        assert(all =~= s.push('.'));
        assert(all.drop_last() =~= s);
        assert(w =~= Seq::empty());
    } else {
        let shorter = w.drop_last();
        assert forall|i: int| 0 <= i < shorter.len() implies shorter[i] != '.' by {
            assert(w[i] != '.');
        }
        lemma_one_more_piece(s, shorter);
        assert(w[w.len() - 1] != '.');
        assert(all.drop_last() =~= s.push('.') + shorter);
        assert(all.last() == w.last());
        assert(shorter.push(w.last()) =~= w);
        assert(pieces(all) =~= pieces(s).push(w));
    }
}

proof fn lemma_pieces_of_dotted(p: Seq<Seq<char>>)
    requires
        p.len() > 0,
        none_holds(p, '.'),
    ensures
        pieces(dotted(p)) == p,
    decreases p.len(),
{
    let last = p[p.len() - 1];
    assert(!last.contains('.'));
    if p.len() == 1 {
        lemma_one_piece(last);
        assert(seq![last] =~= p);
    } else {
        let earlier = p.drop_last();
        assert forall|i: int| 0 <= i < earlier.len() implies !(#[trigger] earlier[i]).contains('.') by {
            assert(earlier[i] == p[i]);
        }
        lemma_pieces_of_dotted(earlier);
        lemma_one_more_piece(dotted(earlier), last);
        assert(earlier.push(last) =~= p);
    }
}

proof fn lemma_dotted_holds_no(p: Seq<Seq<char>>, mark: char)
    requires
        none_holds(p, mark),
        mark != '.',
    ensures
        !dotted(p).contains(mark),
    decreases p.len(),
{
    if p.len() == 1 {
        assert(!p[0].contains(mark));
    } else if p.len() > 1 {
        let earlier = p.drop_last();
        assert forall|i: int| 0 <= i < earlier.len() implies !(#[trigger] earlier[i]).contains(mark) by {
            assert(earlier[i] == p[i]);
        }
        lemma_dotted_holds_no(earlier, mark);
        let head = dotted(earlier);
        let last = p[p.len() - 1];
        assert(!last.contains(mark));
        let all = head.push('.') + last;
        assert forall|i: int| 0 <= i < all.len() implies all[i] != mark by {
            if i < head.len() {
                assert(head[i] != mark);
            } else if i > head.len() {
                assert(all[i] == last[i - head.len() - 1]);
            }
        }
    }
}

proof fn lemma_cut(head: Seq<char>, mark: char, tail: Seq<char>)
    requires
        !head.contains(mark),
    ensures
        before(head, mark) == head,
        before(head.push(mark) + tail, mark) == head,
        (head.push(mark) + tail).contains(mark),
        behind(head.push(mark) + tail, mark) == tail,
{
    let all = head.push(mark) + tail;
    let n = head.len() as int;
    assert forall|i: int| 0 <= i < n implies #[trigger] head[i] != mark by {}
    assert forall|i: int| 0 <= i < n implies #[trigger] all[i] != mark by {
        assert(head[i] != mark);
    }
    lemma_before(head, mark, n);
    assert(head.take(n) =~= head);
    assert(all[n] == mark);
    lemma_before(all, mark, n);
    assert(all.take(n) =~= head);
    assert(all.skip(n + 1) =~= tail);
}

/// A version is read as it is written, and nothing else is a version: text that
/// is made of dotted numbers, a dotted pre-release and build metadata is a version
/// exactly if each number has digits and no other characters and fits into 64
/// bits, and no component of the pre-release is empty or a number that does not
/// fit. What is read are the numbers in their order, and the components of the
/// pre-release in theirs, digits as numbers and the rest as words. Build metadata
/// do not count.
pub proof fn a_version_is_read_as_it_is_written(
    numbers: Seq<Seq<char>>,
    pre: Seq<Seq<char>>,
    build: Option<Seq<char>>,
)
    requires
        numbers.len() > 0,
        none_holds(numbers, '.'),
        none_holds(numbers, '-'),
        none_holds(numbers, '+'),
        none_holds(pre, '.'),
        none_holds(pre, '+'),
    ensures
        version_in(written(numbers, pre, build)) is Some <==> {
            &&& forall|i: int|
                0 <= i < numbers.len() ==> (#[trigger] numbers[i]).len() > 0 && text::all_digits(
                    numbers[i],
                ) && text::decimal_value(numbers[i]) < 0x1_0000_0000_0000_0000
            &&& forall|i: int|
                0 <= i < pre.len() ==> (#[trigger] pre[i]).len() > 0 && (text::all_digits(pre[i])
                    ==> text::decimal_value(pre[i]) < 0x1_0000_0000_0000_0000)
        },
        version_in(written(numbers, pre, build)) matches Some(v) ==> {
            &&& v.numbers.len() == numbers.len()
            &&& forall|i: int|
                0 <= i < numbers.len() ==> #[trigger] v.numbers[i] == text::decimal_value(numbers[i])
            &&& v.pre.len() == pre.len()
            &&& forall|i: int|
                #![trigger v.pre[i]]
                0 <= i < pre.len() ==> if text::all_digits(pre[i]) {
                    v.pre[i] is Number && v.pre[i]->Number_0 == text::decimal_value(pre[i])
                } else {
                    v.pre[i] == Part::Word(pre[i])
                }
        },
{
    let s = written(numbers, pre, build);
    let core = dotted(numbers);
    let plain = if pre.len() > 0 {
        core.push('-') + dotted(pre)
    } else {
        core
    };
    lemma_dotted_holds_no(numbers, '-');
    lemma_dotted_holds_no(numbers, '+');
    lemma_dotted_holds_no(pre, '+');
    assert(!plain.contains('+')) by {
        assert forall|i: int| 0 <= i < plain.len() implies plain[i] != '+' by {
            if i < core.len() {
                assert(core[i] != '+');
            } else if i > core.len() {
                assert(plain[i] == dotted(pre)[i - core.len() - 1]);
            }
        }
    }
    let metadata = match build {
        Some(metadata) => metadata,
        None => Seq::empty(),
    };
    lemma_cut(plain, '+', metadata);
    assert(before(s, '+') == plain);
    lemma_cut(core, '-', dotted(pre));
    lemma_pieces_of_dotted(numbers);
    if pre.len() > 0 {
        lemma_pieces_of_dotted(pre);
        assert(pieces(pre_text(s)) == pre);
    }
    assert(has_pre(s) == (pre.len() > 0));
    assert(pieces(numbers_text(s)) == numbers);
    assert(all_numbers(numbers) <==> forall|i: int|
        0 <= i < numbers.len() ==> (#[trigger] numbers[i]).len() > 0 && text::all_digits(numbers[i])
            && text::decimal_value(numbers[i]) < 0x1_0000_0000_0000_0000) by {
        if all_numbers(numbers) {
            assert forall|i: int| 0 <= i < numbers.len() implies (#[trigger] numbers[i]).len() > 0
                && text::all_digits(numbers[i]) && text::decimal_value(numbers[i])
                < 0x1_0000_0000_0000_0000 by {
                assert(number_in(numbers[i]) is Some);
            }
        }
    }
    assert(all_parts(pre) <==> forall|i: int|
        0 <= i < pre.len() ==> (#[trigger] pre[i]).len() > 0 && (text::all_digits(pre[i])
            ==> text::decimal_value(pre[i]) < 0x1_0000_0000_0000_0000)) by {
        if all_parts(pre) {
            assert forall|i: int| 0 <= i < pre.len() implies (#[trigger] pre[i]).len() > 0 && (
            text::all_digits(pre[i]) ==> text::decimal_value(pre[i]) < 0x1_0000_0000_0000_0000) by {
                assert(part_in(pre[i]) is Some);
            }
        }
    }
    if let Some(v) = version_in(s) {
        assert forall|i: int| 0 <= i < numbers.len() implies #[trigger] v.numbers[i]
            == text::decimal_value(numbers[i]) by {
            assert(number_in(numbers[i]) is Some);
        }
        assert forall|i: int|
            #![trigger v.pre[i]]
            0 <= i < pre.len() implies if text::all_digits(pre[i]) {
            v.pre[i] is Number && v.pre[i]->Number_0 == text::decimal_value(pre[i])
        } else {
            v.pre[i] == Part::Word(pre[i])
        } by {
            assert(part_in(pre[i]) is Some);
        }
    }
}

/// Numbers that a version does not write count as zero.
pub proof fn missing_numbers_count_as_zero(numbers: Seq<u64>, i: int)
    requires
        0 <= i,
    ensures
        i < numbers.len() ==> number_at(numbers, i) == numbers[i],
        i >= numbers.len() ==> number_at(numbers, i) == 0,
{
}

/// The first number in which two versions differ decides, and the greater one is
/// the newer, whatever follows.
pub proof fn the_first_number_that_differs_decides(latest: Seq<char>, current: Seq<char>, i: int)
    requires
        version_in(latest) is Some,
        version_in(current) is Some,
        0 <= i,
        forall|j: int|
            0 <= j < i ==> #[trigger] number_at(version_in(latest)->0.numbers, j) == number_at(
                version_in(current)->0.numbers,
                j,
            ),
        number_at(version_in(latest)->0.numbers, i) > number_at(version_in(current)->0.numbers, i),
    ensures
        is_newer(latest, current),
        !is_newer(current, latest),
{
    assert(numbers_part_at(version_in(latest)->0.numbers, version_in(current)->0.numbers, i));
    newer_goes_one_way(latest, current);
}

/// Both texts are versions with the same numbers.
pub open spec fn same_numbers(latest: Seq<char>, current: Seq<char>) -> bool {
    &&& version_in(latest) is Some
    &&& version_in(current) is Some
    &&& forall|j: int|
        0 <= j ==> #[trigger] number_at(version_in(latest)->0.numbers, j) == number_at(
            version_in(current)->0.numbers,
            j,
        )
}

/// With the same numbers, a release is newer than any pre-release, and two
/// versions with the same pre-release, or none, are equally new.
pub proof fn a_release_follows_its_pre_releases(latest: Seq<char>, current: Seq<char>)
    requires
        same_numbers(latest, current),
    ensures
        ({
            let a = version_in(latest)->0.pre;
            let b = version_in(current)->0.pre;
            &&& a.len() == 0 && b.len() > 0 ==> is_newer(latest, current) && !is_newer(
                current,
                latest,
            )
            &&& a == b ==> !is_newer(latest, current) && !is_newer(current, latest)
        }),
{
    let a = version_in(latest)->0;
    let b = version_in(current)->0;
    assert(numbers_equal(a.numbers, b.numbers));
    assert(numbers_equal(b.numbers, a.numbers)) by {
        assert forall|j: int| 0 <= j implies #[trigger] number_at(b.numbers, j) == number_at(
            a.numbers,
            j,
        ) by {
            assert(number_at(a.numbers, j) == number_at(b.numbers, j));
        }
    }
    if numbers_above(a.numbers, b.numbers) {
        lemma_numbers_strict(a.numbers, b.numbers);
    }
    if numbers_above(b.numbers, a.numbers) {
        lemma_numbers_strict(b.numbers, a.numbers);
    }
    if a.pre == b.pre {
        lemma_pre_irreflexive(a.pre);
    }
}

/// With the same numbers, the first component in which two pre-releases differ,
/// the `k`-th, decides. Numbers are in ascending order and come before words; words are in
/// ascending order of their characters, from the first one that differs, the
/// `m`-th, and a word comes before those that it begins. Where one pre-release goes on while the
/// other has ended, the longer one is the newer.
pub proof fn pre_releases_ascend(latest: Seq<char>, current: Seq<char>, k: int, m: int)
    requires
        same_numbers(latest, current),
        ({
            let a = version_in(latest)->0.pre;
            let b = version_in(current)->0.pre;
            &&& 0 <= k < a.len()
            &&& k <= b.len()
            &&& 0 < b.len()
            &&& forall|j: int| 0 <= j < k ==> #[trigger] a[j] == b[j]
            &&& k < b.len() ==> match (a[k], b[k]) {
                (Part::Number(x), Part::Number(y)) => x > y,
                (Part::Word(_), Part::Number(_)) => true,
                (Part::Number(_), Part::Word(_)) => false,
                (Part::Word(w), Part::Word(u)) => {
                    &&& 0 <= m < w.len()
                    &&& m <= u.len()
                    &&& w.take(m) == u.take(m)
                    &&& m < u.len() ==> w[m] > u[m]
                },
            }
        }),
    ensures
        is_newer(latest, current),
        !is_newer(current, latest),
{
    let a = version_in(latest)->0;
    let b = version_in(current)->0;
    assert(numbers_equal(a.numbers, b.numbers));
    if k < b.pre.len() {
        if let (Part::Word(w), Part::Word(u)) = (a.pre[k], b.pre[k]) {
            assert forall|j: int| 0 <= j < m implies #[trigger] w[j] == u[j] by {
                assert(w.take(m)[j] == u.take(m)[j]);
            }
            assert(words_part_at(w, u, m));
        }
    }
    assert(parts_part_at(a.pre, b.pre, k));
    newer_goes_one_way(latest, current);
}

/// Text that is no version is newer than nothing, and every version is newer than
/// it. As an answer of the registry it replaces what differs from it; a version
/// replaces only what it is newer than.
pub proof fn text_that_is_no_version_cannot_be_ordered(latest: Seq<char>, current: Seq<char>)
    ensures
        version_in(latest) is None ==> !is_newer(latest, current),
        version_in(latest) is Some && version_in(current) is None ==> is_newer(latest, current),
        version_in(latest) is None ==> (is_due(latest, current) <==> latest != current),
        version_in(latest) is Some ==> (is_due(latest, current) <==> is_newer(latest, current)),
{
}

} // verus!
