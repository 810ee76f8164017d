//! Text as sequences of characters.
//!
//! The contracts of this crate speak of a string by its view, a `Seq<char>`.
//! The functions here are the few operations on strings that the rest of the
//! crate is written in.

use vstd::prelude::*;
use vstd::string::*;

verus! {

/// `String::push` puts one character behind the ones already there.
pub assume_specification[ String::push ](s: &mut String, c: char)
    ensures
        final(s)@ == old(s)@.push(c),
;

/// The characters of a string, in order.
pub fn characters(s: &str) -> (out: Vec<char>)
    ensures
        out@ == s@,
{
    let mut out: Vec<char> = Vec::new();
    for c in it: s.chars()
        invariant
            it.seq() == s@,
            out@ == s@.take(it.index() as int),
    {
        proof {
            assert(s@.take(it.index() as int + 1) =~= s@.take(it.index() as int).push(c));
        }
        out.push(c);
    }
    proof {
        assert(s@.take(s@.len() as int) =~= s@);
    }
    out
}

/// The string made of `chars[from..to]`.
pub fn slice(chars: &Vec<char>, from: usize, to: usize) -> (out: String)
    requires
        from <= to <= chars@.len(),
    ensures
        out@ == chars@.subrange(from as int, to as int),
{
    let mut out = String::new();
    let mut i: usize = from;
    while i < to
        invariant
            from <= i <= to <= chars@.len(),
            out@ == chars@.subrange(from as int, i as int),
        decreases to - i,
    {
        proof {
            assert(chars@.subrange(from as int, i + 1) =~= chars@.subrange(from as int, i as int).push(chars@[i as int]));
        }
        out.push(chars[i]);
        i += 1;
    }
    out
}

/// Whether two strings hold the same characters.
pub fn same(a: &str, b: &str) -> (out: bool)
    ensures
        out == (a@ == b@),
{
    a.to_owned() == b.to_owned()
}

/// `a`, then `b`.
pub fn glue(a: &str, b: &str) -> (out: String)
    ensures
        out@ == a@ + b@,
{
    let mut out = a.to_owned();
    out.append(b);
    out
}

/// `a`, then `b`, then `c`.
pub fn glue3(a: &str, b: &str, c: &str) -> (out: String)
    ensures
        out@ == a@ + b@ + c@,
{
    let mut out = a.to_owned();
    out.append(b);
    out.append(c);
    out
}

/// `a`, `b`, `c`, then `d`.
pub fn glue4(a: &str, b: &str, c: &str, d: &str) -> (out: String)
    ensures
        out@ == a@ + b@ + c@ + d@,
{
    let mut out = glue3(a, b, c);
    out.append(d);
    out
}

/// `a`, `b`, `c`, `d`, then `e`.
pub fn glue5(a: &str, b: &str, c: &str, d: &str, e: &str) -> (out: String)
    ensures
        out@ == a@ + b@ + c@ + d@ + e@,
{
    let mut out = glue4(a, b, c, d);
    out.append(e);
    out
}

/// The view of a string that may be missing.
pub open spec fn maybe(s: Option<String>) -> Option<Seq<char>> {
    match s {
        Some(s) => Some(s@),
        None => None,
    }
}

/// A copy of a string that may be missing.
pub fn copy_maybe(s: &Option<String>) -> (out: Option<String>)
    ensures
        out == *s,
{
    match s {
        Some(s) => Some(s.clone()),
        None => None,
    }
}

/// Whether two strings that may be missing are the same.
pub fn same_maybe(a: &Option<String>, b: &Option<String>) -> (out: bool)
    ensures
        out == (maybe(*a) == maybe(*b)),
{
    match (a, b) {
        (Some(a), Some(b)) => same(a, b),
        (None, None) => true,
        _ => false,
    }
}

/// One decimal digit.
pub open spec fn digit(d: nat) -> char {
    (48 + d) as char
}

/// A number in decimal, without leading zeros.
pub open spec fn decimal(n: nat) -> Seq<char>
    decreases n,
{
    if n < 10 {
        seq![digit(n)]
    } else {
        decimal(n / 10).push(digit(n % 10))
    }
}

fn digit_text(d: u64) -> (out: char)
    requires
        d < 10,
    ensures
        out == digit(d as nat),
{
    if d == 0 {
        '0'
    } else if d == 1 {
        '1'
    } else if d == 2 {
        '2'
    } else if d == 3 {
        '3'
    } else if d == 4 {
        '4'
    } else if d == 5 {
        '5'
    } else if d == 6 {
        '6'
    } else if d == 7 {
        '7'
    } else if d == 8 {
        '8'
    } else {
        '9'
    }
}

/// A number in decimal.
pub fn decimal_text(n: u64) -> (out: String)
    ensures
        out@ == decimal(n as nat),
    decreases n,
{
    let mut out = if n < 10 { String::new() } else { decimal_text(n / 10) };
    out.push(digit_text(n % 10));
    proof {
        if n < 10 {
            assert(out@ =~= decimal(n as nat));
        }
    }
    out
}

/// Two different numbers are never written alike.
pub proof fn decimals_are_distinct(a: nat, b: nat)
    requires
        decimal(a) == decimal(b),
    ensures
        a == b,
    decreases a,
{
    assert(decimal(a).last() == digit(a % 10) && decimal(b).last() == digit(b % 10)) by {
        decimal_is_not_empty(a);
        decimal_is_not_empty(b);
    }
    assert(a % 10 == b % 10);
    if a < 10 && b < 10 {
    } else if a < 10 {
        decimal_is_not_empty(b / 10);
        assert(decimal(b).len() > 1);
        assert(false);
    } else if b < 10 {
        decimal_is_not_empty(a / 10);
        assert(decimal(a).len() > 1);
        assert(false);
    } else {
        assert(decimal(a).drop_last() =~= decimal(a / 10));
        assert(decimal(b).drop_last() =~= decimal(b / 10));
        decimals_are_distinct(a / 10, b / 10);
    }
}

proof fn decimal_is_not_empty(n: nat)
    ensures
        decimal(n).len() > 0,
{
}

/// The order of strings: by the first character in which they differ, and a
/// string before every longer one that begins with it.
pub open spec fn before(a: Seq<char>, b: Seq<char>) -> bool
    decreases a.len(),
{
    if b.len() == 0 {
        false
    } else if a.len() == 0 {
        true
    } else if a[0] == b[0] {
        before(a.drop_first(), b.drop_first())
    } else {
        a[0] < b[0]
    }
}

/// Whether `a` stands before `b`.
pub fn precedes(a: &str, b: &str) -> (out: bool)
    ensures
        out == before(a@, b@),
{
    let x = characters(a);
    let y = characters(b);
    let mut i: usize = 0;
    proof {
        assert(x@.skip(0) =~= x@ && y@.skip(0) =~= y@);
    }
    while i < x.len() && i < y.len() && x[i] == y[i]
        invariant
            i <= x@.len(),
            i <= y@.len(),
            before(x@, y@) == before(x@.skip(i as int), y@.skip(i as int)),
        decreases x@.len() - i,
    {
        proof {
            assert(x@.skip(i as int).drop_first() =~= x@.skip(i + 1));
            assert(y@.skip(i as int).drop_first() =~= y@.skip(i + 1));
        }
        i += 1;
    }
    if i == y.len() {
        false
    } else if i == x.len() {
        true
    } else {
        x[i] < y[i]
    }
}

/// No string stands before itself.
pub proof fn before_is_irreflexive(a: Seq<char>)
    ensures
        !before(a, a),
    decreases a.len(),
{
    if a.len() > 0 {
        before_is_irreflexive(a.drop_first());
    }
}

/// The order of strings is transitive.
pub proof fn before_is_transitive(a: Seq<char>, b: Seq<char>, c: Seq<char>)
    requires
        before(a, b),
        before(b, c),
    ensures
        before(a, c),
    decreases a.len(),
{
    if a.len() > 0 && a[0] == b[0] && b[0] == c[0] {
        before_is_transitive(a.drop_first(), b.drop_first(), c.drop_first());
    }
}

/// Of two different strings one stands before the other.
pub proof fn before_is_total(a: Seq<char>, b: Seq<char>)
    ensures
        a == b || before(a, b) || before(b, a),
    decreases a.len(),
{
    if a.len() == 0 && b.len() == 0 {
        assert(a =~= b);
    } else if a.len() > 0 && b.len() > 0 && a[0] == b[0] {
        before_is_total(a.drop_first(), b.drop_first());
        if a.drop_first() == b.drop_first() {
            assert(a =~= seq![a[0]] + a.drop_first());
            assert(b =~= seq![b[0]] + b.drop_first());
        }
    }
}

// ---------------------------------------------------------------------------
// Finding and splitting
// ---------------------------------------------------------------------------

/// Whether `part` stands in `s` at `i`.
pub open spec fn stands_at(s: Seq<char>, part: Seq<char>, i: int) -> bool {
    &&& 0 <= i
    &&& i + part.len() <= s.len()
    &&& s.subrange(i, i + part.len()) == part
}

/// Whether `part` stands anywhere in `s`.
pub open spec fn occurs(s: Seq<char>, part: Seq<char>) -> bool {
    exists|i: int| stands_at(s, part, i)
}

/// The first place at or behind `from` where `part` stands.
pub open spec fn next_place(s: Seq<char>, part: Seq<char>, from: int) -> Option<int>
    decreases s.len() + 1 - from,
{
    if from < 0 || from + part.len() > s.len() {
        None
    } else if stands_at(s, part, from) {
        Some(from)
    } else {
        next_place(s, part, from + 1)
    }
}

/// [`next_place`] is the least place, where there is one.
pub proof fn next_place_is_first(s: Seq<char>, part: Seq<char>, from: int)
    requires
        0 <= from,
    ensures
        match next_place(s, part, from) {
            Some(i) => {
                &&& from <= i
                &&& stands_at(s, part, i)
                &&& forall|j: int| from <= j < i ==> !stands_at(s, part, j)
            },
            None => forall|j: int| from <= j ==> !stands_at(s, part, j),
        },
    decreases s.len() + 1 - from,
{
    if from + part.len() <= s.len() && !stands_at(s, part, from) {
        next_place_is_first(s, part, from + 1);
    }
}

/// The pieces of `s` between the places where `separator` stands, from the left
/// and without overlap.
pub open spec fn split(s: Seq<char>, separator: Seq<char>) -> Seq<Seq<char>>
    decreases s.len(),
    when separator.len() > 0
    via split_decreases
{
    match next_place(s, separator, 0) {
        Some(i) => seq![s.take(i)] + split(s.skip(i + separator.len()), separator),
        None => seq![s],
    }
}

#[via_fn]
proof fn split_decreases(s: Seq<char>, separator: Seq<char>) {
    next_place_is_first(s, separator, 0);
}

/// The pieces with `separator` between each two.
pub open spec fn join(pieces: Seq<Seq<char>>, separator: Seq<char>) -> Seq<char>
    decreases pieces.len(),
{
    if pieces.len() == 0 {
        Seq::empty()
    } else if pieces.len() == 1 {
        pieces[0]
    } else {
        pieces[0] + separator + join(pieces.drop_first(), separator)
    }
}

/// `s` with `to` wherever `from` stood.
pub open spec fn replaced(s: Seq<char>, from: Seq<char>, to: Seq<char>) -> Seq<char> {
    join(split(s, from), to)
}

/// Splitting loses nothing, and no piece holds the separator.
pub proof fn splitting_loses_nothing(s: Seq<char>, separator: Seq<char>)
    requires
        separator.len() > 0,
    ensures
        split(s, separator).len() > 0,
        join(split(s, separator), separator) == s,
        forall|k: int| 0 <= k < split(s, separator).len() ==> !occurs(#[trigger] split(s, separator)[k], separator),
    decreases s.len(),
{
    next_place_is_first(s, separator, 0);
    let pieces = split(s, separator);
    match next_place(s, separator, 0) {
        Some(i) => {
            let rest = s.skip(i + separator.len());
            splitting_loses_nothing(rest, separator);
            assert(pieces.drop_first() =~= split(rest, separator));
            assert(pieces[0] == s.take(i));
            assert(s =~= s.take(i) + separator + rest) by {
                assert(s.subrange(i, i + separator.len()) == separator);
                assert forall|k: int| i <= k < i + separator.len() implies s[k] == separator[k - i] by {
                    assert(s.subrange(i, i + separator.len())[k - i] == s[k]);
                }
            }
            assert forall|k: int| 0 <= k < pieces.len() implies !occurs(#[trigger] pieces[k], separator) by {
                if k == 0 {
                    if occurs(s.take(i), separator) {
                        let j = choose|j: int| stands_at(s.take(i), separator, j);
                        assert(s.subrange(j, j + separator.len()) =~= s.take(i).subrange(j, j + separator.len()));
                        assert(stands_at(s, separator, j));
                    }
                } else {
                    assert(pieces[k] == split(rest, separator)[k - 1]);
                }
            }
        },
        None => {
            assert(pieces =~= seq![s]);
            if occurs(s, separator) {
                let j = choose|j: int| stands_at(s, separator, j);
                assert(false);
            }
        },
    }
}

/// Whether `part` stands in `chars` at `i`.
fn matches_at(chars: &Vec<char>, part: &Vec<char>, i: usize) -> (out: bool)
    requires
        i <= chars@.len(),
    ensures
        out == stands_at(chars@, part@, i as int),
{
    if part.len() > chars.len() - i {
        return false;
    }
    let mut k: usize = 0;
    while k < part.len()
        invariant
            i + part@.len() <= chars@.len() <= usize::MAX,
            k <= part@.len(),
            forall|j: int| 0 <= j < k ==> chars@[i + j] == part@[j],
        decreases part@.len() - k,
    {
        if chars[i + k] != part[k] {
            proof {
                assert(chars@.subrange(i as int, i + part@.len())[k as int] == chars@[i + k]);
            }
            return false;
        }
        k += 1;
    }
    proof {
        assert(chars@.subrange(i as int, i + part@.len()) =~= part@);
    }
    true
}

/// The first place at or behind `from` where `part` stands.
fn find_from(chars: &Vec<char>, part: &Vec<char>, from: usize) -> (out: Option<usize>)
    requires
        from <= chars@.len(),
    ensures
        match out {
            Some(i) => next_place(chars@, part@, from as int) == Some(i as int) && i + part@.len() <= chars@.len(),
            None => next_place(chars@, part@, from as int) is None,
        },
{
    let mut i: usize = from;
    while part.len() <= chars.len() - i
        invariant
            i <= chars@.len(),
            next_place(chars@, part@, from as int) == next_place(chars@, part@, i as int),
        decreases chars@.len() - i,
    {
        if matches_at(chars, part, i) {
            return Some(i);
        }
        proof {
            if part@.len() == 0 {
                assert(chars@.subrange(i as int, i as int) =~= part@);
            }
        }
        i += 1;
    }
    None
}

/// Whether `part` stands anywhere in `s`.
pub fn contains(s: &str, part: &str) -> (out: bool)
    ensures
        out == occurs(s@, part@),
{
    let chars = characters(s);
    let wanted = characters(part);
    proof {
        next_place_is_first(s@, part@, 0);
    }
    let found = find_from(&chars, &wanted, 0);
    proof {
        if found is None {
            if occurs(s@, part@) {
                let i = choose|i: int| stands_at(s@, part@, i);
                assert(stands_at(s@, part@, i));
            }
        } else {
            assert(stands_at(s@, part@, next_place(s@, part@, 0)->0));
        }
    }
    found.is_some()
}

/// The views of a list of strings.
pub open spec fn views(list: Seq<String>) -> Seq<Seq<char>> {
    Seq::new(list.len(), |i: int| list[i]@)
}

/// The pieces of `s` between the places where `separator` stands.
pub fn split_on(s: &str, separator: &str) -> (out: Vec<String>)
    requires
        separator@.len() > 0,
    ensures
        views(out@) == split(s@, separator@),
{
    let chars = characters(s);
    let wanted = characters(separator);
    let length: usize = chars.len();
    let mut out: Vec<String> = Vec::new();
    let mut from: usize = 0;
    proof {
        assert(chars@.skip(0) =~= chars@);
        assert(views(out@) =~= Seq::<Seq<char>>::empty());
        assert(split(chars@, wanted@) =~= views(out@) + split(chars@.skip(0), wanted@));
    }
    loop
        invariant
            wanted@.len() > 0,
            wanted@ == separator@,
            chars@ == s@,
            length == chars@.len(),
            from <= length,
            split(chars@, wanted@) == views(out@) + split(chars@.skip(from as int), wanted@),
        decreases chars@.len() - from,
    {
        let ghost rest = chars@.skip(from as int);
        proof {
            next_place_is_first(rest, wanted@, 0);
            next_place_is_first(chars@, wanted@, from as int);
            shifted_places(chars@, wanted@, from as int);
        }
        match find_from(&chars, &wanted, from) {
            Some(i) => {
                let piece = slice(&chars, from, i);
                let ghost earlier = out@;
                out.push(piece);
                proof {
                    let k = i - from;
                    assert(next_place(rest, wanted@, 0) == Some(k));
                    assert(rest.take(k) =~= chars@.subrange(from as int, i as int));
                    assert(rest.skip(k + wanted@.len()) =~= chars@.skip(i + wanted@.len()));
                    assert(views(out@) =~= views(earlier).push(rest.take(k)));
                    assert(split(rest, wanted@) == seq![rest.take(k)] + split(rest.skip(k + wanted@.len()), wanted@));
                    assert(views(earlier) + split(rest, wanted@) =~= views(out@) + split(
                        chars@.skip(i + wanted@.len()),
                        wanted@,
                    ));
                }
                from = i + wanted.len();
            },
            None => {
                let piece = slice(&chars, from, length);
                let ghost earlier = out@;
                out.push(piece);
                proof {
                    assert(next_place(rest, wanted@, 0) is None);
                    assert(rest =~= chars@.subrange(from as int, chars@.len() as int));
                    assert(split(rest, wanted@) =~= seq![rest]);
                    assert(views(out@) =~= views(earlier).push(rest));
                    assert(views(earlier) + seq![rest] =~= views(out@));
                }
                return out;
            },
        }
    }
}

/// A place in what follows is a place further on in the whole.
proof fn shifted_places(s: Seq<char>, part: Seq<char>, from: int)
    requires
        0 <= from <= s.len(),
    ensures
        next_place(s.skip(from), part, 0) == match next_place(s, part, from) {
            Some(i) => Some(i - from),
            None => None,
        },
{
    let rest = s.skip(from);
    next_place_is_first(rest, part, 0);
    next_place_is_first(s, part, from);
    assert forall|k: int| 0 <= k implies stands_at(rest, part, k) == stands_at(s, part, from + k) by {
        if k + part.len() <= rest.len() {
            assert(rest.subrange(k, k + part.len()) =~= s.subrange(from + k, from + k + part.len()));
        }
    }
    match next_place(rest, part, 0) {
        Some(k) => {
            assert(stands_at(s, part, from + k));
            assert(next_place(s, part, from) is Some);
            let i = next_place(s, part, from)->0;
            assert(stands_at(rest, part, i - from));
        },
        None => {
            if next_place(s, part, from) is Some {
                let i = next_place(s, part, from)->0;
                assert(stands_at(rest, part, i - from));
            }
        },
    }
}

/// The pieces with `separator` between each two.
pub fn join_with(pieces: &Vec<String>, separator: &str) -> (out: String)
    ensures
        out@ == join(views(pieces@), separator@),
{
    let mut out = String::new();
    let ghost all = views(pieces@);
    let mut i: usize = pieces.len();
    if i == 0 {
        return out;
    }
    i -= 1;
    out = pieces[i].clone();
    proof {
        assert(all.skip(i as int) =~= seq![all[i as int]]);
    }
    while i > 0
        invariant
            i < pieces@.len(),
            all == views(pieces@),
            out@ == join(all.skip(i as int), separator@),
        decreases i,
    {
        i -= 1;
        proof {
            assert(all.skip(i as int).drop_first() =~= all.skip(i + 1));
            assert(all.skip(i as int)[0] == pieces@[i as int]@);
        }
        out = glue3(pieces[i].as_str(), separator, &out);
    }
    proof {
        assert(all.skip(0) =~= all);
    }
    out
}

/// `s` with `to` wherever `from` stands.
pub fn replace(s: &str, from: &str, to: &str) -> (out: String)
    requires
        from@.len() > 0,
    ensures
        out@ == replaced(s@, from@, to@),
{
    let pieces = split_on(s, from);
    join_with(&pieces, to)
}

/// `s` with `to` where `from` first stands.
pub open spec fn replaced_first(s: Seq<char>, from: Seq<char>, to: Seq<char>) -> Seq<char> {
    match next_place(s, from, 0) {
        Some(i) => s.take(i) + to + s.skip(i + from.len()),
        None => s,
    }
}

/// `s` with `to` where `from` first stands.
pub fn replace_first(s: &str, from: &str, to: &str) -> (out: String)
    ensures
        out@ == replaced_first(s@, from@, to@),
{
    let chars = characters(s);
    let wanted = characters(from);
    match find_from(&chars, &wanted, 0) {
        Some(i) => {
            let length: usize = chars.len();
            let front = slice(&chars, 0, i);
            let back = slice(&chars, i + wanted.len(), length);
            proof {
                assert(chars@.subrange(0, i as int) =~= chars@.take(i as int));
                assert(chars@.subrange(i + wanted@.len(), length as int) =~= chars@.skip(i + wanted@.len()));
            }
            glue3(&front, to, &back)
        },
        None => s.to_owned(),
    }
}

/// Whether `s` begins with `prefix`.
pub fn starts_with(s: &str, prefix: &str) -> (out: bool)
    ensures
        out == prefix@.is_prefix_of(s@),
{
    let chars = characters(s);
    let wanted = characters(prefix);
    let out = matches_at(&chars, &wanted, 0);
    proof {
        if prefix@.len() <= s@.len() {
            assert(s@.subrange(0, prefix@.len() as int) =~= s@.take(prefix@.len() as int));
        }
    }
    out
}

/// Whether `s` ends with `suffix`.
pub fn ends_with(s: &str, suffix: &str) -> (out: bool)
    ensures
        out == suffix@.is_suffix_of(s@),
{
    let chars = characters(s);
    let wanted = characters(suffix);
    if wanted.len() > chars.len() {
        return false;
    }
    matches_at(&chars, &wanted, chars.len() - wanted.len())
}

/// What follows `prefix` in `s`, where `s` begins with it.
pub fn strip_prefix(s: &str, prefix: &str) -> (out: Option<String>)
    ensures
        maybe(out) == if prefix@.is_prefix_of(s@) { Some(s@.skip(prefix@.len() as int)) } else { None },
{
    if starts_with(s, prefix) {
        let chars = characters(s);
        let from: usize = characters(prefix).len();
        let rest = slice(&chars, from, chars.len());
        proof {
            assert(s@.subrange(from as int, s@.len() as int) =~= s@.skip(from as int));
        }
        Some(rest)
    } else {
        None
    }
}

// ---------------------------------------------------------------------------
// White space and letters
// ---------------------------------------------------------------------------

/// Whether a character is white space (Unicode's `White_Space`).
pub open spec fn is_space(c: char) -> bool {
    let n = c as u32;
    ||| 9 <= n <= 13
    ||| n == 0x20
    ||| n == 0x85
    ||| n == 0xA0
    ||| n == 0x1680
    ||| 0x2000 <= n <= 0x200A
    ||| n == 0x2028
    ||| n == 0x2029
    ||| n == 0x202F
    ||| n == 0x205F
    ||| n == 0x3000
}

/// Whether a character is white space.
pub fn space(c: char) -> (out: bool)
    ensures
        out == is_space(c),
{
    let n: u32 = c as u32;
    (9 <= n && n <= 13) || n == 0x20 || n == 0x85 || n == 0xA0 || n == 0x1680 || (0x2000 <= n && n <= 0x200A)
        || n == 0x2028 || n == 0x2029 || n == 0x202F || n == 0x205F || n == 0x3000
}

/// `s` without the white space it begins with.
pub open spec fn trimmed_start(s: Seq<char>) -> Seq<char>
    decreases s.len(),
{
    if s.len() > 0 && is_space(s[0]) {
        trimmed_start(s.drop_first())
    } else {
        s
    }
}

/// `s` without the white space it ends with.
pub open spec fn trimmed_end(s: Seq<char>) -> Seq<char>
    decreases s.len(),
{
    if s.len() > 0 && is_space(s.last()) {
        trimmed_end(s.drop_last())
    } else {
        s
    }
}

/// `s` without the white space around it.
pub open spec fn trimmed(s: Seq<char>) -> Seq<char> {
    trimmed_end(trimmed_start(s))
}

/// `s` without the white space around it.
pub fn trim(s: &str) -> (out: String)
    ensures
        out@ == trimmed(s@),
{
    let chars = characters(s);
    let mut from: usize = 0;
    proof {
        assert(chars@.skip(0) =~= chars@);
    }
    while from < chars.len() && space(chars[from])
        invariant
            from <= chars@.len(),
            trimmed_start(chars@) == trimmed_start(chars@.skip(from as int)),
        decreases chars@.len() - from,
    {
        proof {
            assert(chars@.skip(from as int).drop_first() =~= chars@.skip(from + 1));
        }
        from += 1;
    }
    let mut to: usize = chars.len();
    proof {
        assert(chars@.subrange(from as int, to as int) =~= chars@.skip(from as int));
    }
    while from < to && space(chars[to - 1])
        invariant
            from <= to <= chars@.len(),
            trimmed(chars@) == trimmed_end(chars@.subrange(from as int, to as int)),
        decreases to - from,
    {
        proof {
            assert(chars@.subrange(from as int, to as int).drop_last() =~= chars@.subrange(from as int, to - 1));
        }
        to -= 1;
    }
    slice(&chars, from, to)
}

/// Trimming what is trimmed changes nothing.
pub proof fn trimming_is_idempotent(s: Seq<char>)
    ensures
        trimmed(trimmed(s)) == trimmed(s),
{
    trimmed_start_is_clean(s);
    let t = trimmed_start(s);
    trimmed_end_is_clean(t);
    let u = trimmed_end(t);
    trimmed_end_keeps_the_start(t);
    assert(trimmed_start(u) == u);
    assert(trimmed_end(u) == u);
}

proof fn trimmed_start_is_clean(s: Seq<char>)
    ensures
        trimmed_start(s).len() > 0 ==> !is_space(trimmed_start(s)[0]),
    decreases s.len(),
{
    if s.len() > 0 && is_space(s[0]) {
        trimmed_start_is_clean(s.drop_first());
    }
}

proof fn trimmed_end_is_clean(s: Seq<char>)
    ensures
        trimmed_end(s).len() > 0 ==> !is_space(trimmed_end(s).last()),
    decreases s.len(),
{
    if s.len() > 0 && is_space(s.last()) {
        trimmed_end_is_clean(s.drop_last());
    }
}

proof fn trimmed_end_keeps_the_start(s: Seq<char>)
    ensures
        trimmed_end(s).len() > 0 ==> trimmed_end(s)[0] == s[0],
    decreases s.len(),
{
    if s.len() > 0 && is_space(s.last()) {
        trimmed_end_keeps_the_start(s.drop_last());
    }
}

/// The lower-case form of an ASCII letter; every other character as it is.
pub open spec fn ascii_lower(c: char) -> char {
    if 'A' <= c <= 'Z' {
        (c as u32 + 32) as char
    } else {
        c
    }
}

/// `s` with its ASCII letters in lower case.
pub open spec fn ascii_lowered(s: Seq<char>) -> Seq<char> {
    Seq::new(s.len(), |i: int| ascii_lower(s[i]))
}

/// The lower-case form of an ASCII letter.
fn lower_letter(c: char) -> (out: char)
    ensures
        out == ascii_lower(c),
{
    if 'A' <= c && c <= 'Z' {
        ((c as u8) + 32u8) as char
    } else {
        c
    }
}

/// `s` with its ASCII letters in lower case.
pub fn to_ascii_lower(s: &str) -> (out: String)
    ensures
        out@ == ascii_lowered(s@),
{
    let chars = characters(s);
    let mut out = String::new();
    let mut i: usize = 0;
    proof {
        assert(out@ =~= ascii_lowered(chars@).take(0));
    }
    while i < chars.len()
        invariant
            i <= chars@.len(),
            out@ == ascii_lowered(chars@).take(i as int),
        decreases chars@.len() - i,
    {
        proof {
            assert(ascii_lowered(chars@).take(i + 1) =~= ascii_lowered(chars@).take(i as int).push(
                ascii_lower(chars@[i as int]),
            ));
        }
        out.push(lower_letter(chars[i]));
        i += 1;
    }
    proof {
        assert(ascii_lowered(chars@).take(i as int) =~= ascii_lowered(chars@));
    }
    out
}

/// An ASCII letter in upper case, and any other character as it is.
pub open spec fn ascii_upper(c: char) -> char {
    if 'a' <= c && c <= 'z' {
        ((c as u32) - 32) as char
    } else {
        c
    }
}

/// A text that begins with a capital.
pub open spec fn capitalised(s: Seq<char>) -> Seq<char> {
    if s.len() == 0 {
        s
    } else {
        seq![ascii_upper(s[0])] + s.skip(1)
    }
}

fn upper_letter(c: char) -> (out: char)
    ensures
        out == ascii_upper(c),
{
    if 'a' <= c && c <= 'z' {
        let code: u8 = c as u8 - 32;
        code as char
    } else {
        c
    }
}

/// A text that begins with a capital.
pub fn capitalise(s: &str) -> (out: String)
    ensures
        out@ == capitalised(s@),
{
    let mut chars = characters(s);
    let length: usize = chars.len();
    if length > 0 {
        let first = upper_letter(chars[0]);
        chars.set(0, first);
    }
    let out = slice(&chars, 0, length);
    proof {
        assert(out@ =~= capitalised(s@));
    }
    out
}

/// `s` without the `c`s it ends with.
pub open spec fn without_trailing(s: Seq<char>, c: char) -> Seq<char>
    decreases s.len(),
{
    if s.len() > 0 && s.last() == c {
        without_trailing(s.drop_last(), c)
    } else {
        s
    }
}

/// `s` without the `c`s it ends with.
pub fn trim_trailing(s: &str, c: char) -> (out: String)
    ensures
        out@ == without_trailing(s@, c),
{
    let chars = characters(s);
    let mut to: usize = chars.len();
    proof {
        assert(chars@.take(to as int) =~= chars@);
    }
    while to > 0 && chars[to - 1] == c
        invariant
            to <= chars@.len(),
            without_trailing(chars@, c) == without_trailing(chars@.take(to as int), c),
        decreases to,
    {
        proof {
            assert(chars@.take(to as int).drop_last() =~= chars@.take(to - 1));
        }
        to -= 1;
    }
    proof {
        assert(chars@.subrange(0, to as int) =~= chars@.take(to as int));
    }
    slice(&chars, 0, to)
}

// ---------------------------------------------------------------------------
// Numbers and single separators
// ---------------------------------------------------------------------------

/// The number a run of digits writes.
pub open spec fn value(s: Seq<char>) -> nat
    decreases s.len(),
{
    if s.len() == 0 {
        0
    } else {
        value(s.drop_last()) * 10 + (s.last() as nat - 48) as nat
    }
}

/// Whether a character is a decimal digit.
pub open spec fn is_digit(c: char) -> bool {
    '0' <= c <= '9'
}

/// A number written in decimal is made of digits, none of whose beginnings is a
/// greater number, and the digits write that number.
pub proof fn decimal_is_read_back(n: nat)
    ensures
        value(decimal(n)) == n,
        forall|i: int| 0 <= i < decimal(n).len() ==> is_digit(#[trigger] decimal(n)[i]),
        forall|i: int| 0 <= i <= decimal(n).len() ==> value(#[trigger] decimal(n).take(i)) <= n,
    decreases n,
{
    let s = decimal(n);
    if n < 10 {
        assert(s.drop_last() =~= Seq::<char>::empty());
        assert(value(Seq::<char>::empty()) == 0);
        assert(s.last() == digit(n));
        assert(value(s) == n);
        assert forall|i: int| 0 <= i <= s.len() implies value(#[trigger] s.take(i)) <= n by {
            if i == 0 {
                assert(s.take(i) =~= Seq::<char>::empty());
            } else {
                assert(s.take(i) =~= s);
            }
        }
    } else {
        decimal_is_read_back(n / 10);
        let front = decimal(n / 10);
        assert(s.drop_last() =~= front);
        assert(value(s) == n);
        assert forall|i: int| 0 <= i < s.len() implies is_digit(#[trigger] s[i]) by {
            if i < front.len() {
                assert(s[i] == front[i]);
            }
        }
        assert forall|i: int| 0 <= i <= s.len() implies value(#[trigger] s.take(i)) <= n by {
            if i <= front.len() {
                assert(s.take(i) =~= front.take(i));
            } else {
                assert(s.take(i) =~= s);
            }
        }
    }
}

/// The number at most `limit` that `s` writes in decimal, without leading zeros.
pub fn number(s: &str, limit: u64) -> (out: Option<u64>)
    requires
        limit < 1_000_000_000_000_000_000,
    ensures
        match out {
            Some(n) => n <= limit && s@ == decimal(n as nat),
            None => forall|n: nat| n <= limit ==> s@ != #[trigger] decimal(n),
        },
{
    let chars = characters(s);
    let mut n: u64 = 0;
    let mut i: usize = 0;
    proof {
        assert(s@.take(0) =~= Seq::<char>::empty());
    }
    while i < chars.len()
        invariant
            limit < 1_000_000_000_000_000_000,
            chars@ == s@,
            i <= chars@.len(),
            n <= limit,
            n == value(s@.take(i as int)),
        decreases chars@.len() - i,
    {
        let c = chars[i];
        if !('0' <= c && c <= '9') {
            proof {
                assert forall|m: nat| m <= limit implies s@ != #[trigger] decimal(m) by {
                    decimal_is_read_back(m);
                    if s@ == decimal(m) {
                        assert(is_digit(decimal(m)[i as int]));
                    }
                }
            }
            return None;
        }
        let d: u64 = (c as u8 - 48u8) as u64;
        proof {
            assert(s@.take(i + 1).drop_last() =~= s@.take(i as int));
        }
        n = n * 10 + d;
        i += 1;
        if n > limit {
            proof {
                assert forall|m: nat| m <= limit implies s@ != #[trigger] decimal(m) by {
                    decimal_is_read_back(m);
                    if s@ == decimal(m) {
                        assert(value(decimal(m).take(i as int)) <= m);
                    }
                }
            }
            return None;
        }
    }
    proof {
        assert(s@.take(i as int) =~= s@);
    }
    if same(&decimal_text(n), s) {
        Some(n)
    } else {
        proof {
            assert forall|m: nat| m <= limit implies s@ != #[trigger] decimal(m) by {
                decimal_is_read_back(m);
            }
        }
        None
    }
}

/// A single character stands in a string where the string holds it.
pub proof fn single_stands(s: Seq<char>, c: char, i: int)
    ensures
        stands_at(s, seq![c], i) == (0 <= i < s.len() && s[i] == c),
{
    if 0 <= i < s.len() {
        assert(s.subrange(i, i + 1) =~= seq![s[i]]);
        if s[i] == c {
            assert(seq![s[i]] =~= seq![c]);
        } else {
            assert(seq![s[i]][0] != seq![c][0]);
        }
    }
}

/// Splitting at a single character undoes joining with it, where no piece holds
/// that character.
pub proof fn splitting_undoes_joining(pieces: Seq<Seq<char>>, c: char)
    requires
        pieces.len() > 0,
        forall|k: int| 0 <= k < pieces.len() ==> !(#[trigger] pieces[k]).contains(c),
    ensures
        split(join(pieces, seq![c]), seq![c]) == pieces,
    decreases pieces.len(),
{
    let s = join(pieces, seq![c]);
    next_place_is_first(s, seq![c], 0);
    let first = pieces[0];
    if pieces.len() == 1 {
        if let Some(i) = next_place(s, seq![c], 0) {
            single_stands(s, c, i);
            assert(first.contains(c));
        }
        assert(pieces =~= seq![s]);
    } else {
        let rest = pieces.drop_first();
        assert forall|k: int| 0 <= k < rest.len() implies !(#[trigger] rest[k]).contains(c) by {
            assert(rest[k] == pieces[k + 1]);
        }
        splitting_undoes_joining(rest, c);
        let tail = join(rest, seq![c]);
        assert(s == first + seq![c] + tail);
        let n = first.len() as int;
        single_stands(s, c, n);
        assert(s[n] == c);
        assert(stands_at(s, seq![c], n));
        let i = next_place(s, seq![c], 0)->0;
        assert(next_place(s, seq![c], 0) is Some);
        single_stands(s, c, i);
        if i < n {
            assert(s[i] == first[i]);
            assert(first.contains(c));
        }
        assert(i == n);
        assert(s.take(n) =~= first);
        assert(s.skip(n + 1) =~= tail);
        assert(split(s, seq![c]) =~= seq![first] + rest);
        assert(seq![first] + rest =~= pieces);
    }
}

// ---------------------------------------------------------------------------
// Dotted addresses
// ---------------------------------------------------------------------------

/// An IPv4 address in dotted decimal.
pub open spec fn dotted(a: u8, b: u8, c: u8, d: u8) -> Seq<char> {
    join(seq![decimal(a as nat), decimal(b as nat), decimal(c as nat), decimal(d as nat)], seq!['.'])
}

/// Whether `s` is an IPv4 address in dotted decimal.
pub open spec fn is_dotted(s: Seq<char>) -> bool {
    exists|a: u8, b: u8, c: u8, d: u8| s == #[trigger] dotted(a, b, c, d)
}

proof fn digits_hold_no_dot(n: nat)
    ensures
        !decimal(n).contains('.'),
{
    decimal_is_read_back(n);
    if decimal(n).contains('.') {
        let i = choose|i: int| 0 <= i < decimal(n).len() && decimal(n)[i] == '.';
        assert(is_digit(decimal(n)[i]));
    }
}

/// Whether a string holds digits alone.
spec fn holds_digits(s: Seq<char>) -> bool {
    forall|i: int| 0 <= i < s.len() ==> is_digit(#[trigger] s[i])
}

/// Joining digits with dots gives digits and dots.
proof fn joining_digits(pieces: Seq<Seq<char>>)
    requires
        forall|k: int| 0 <= k < pieces.len() ==> holds_digits(#[trigger] pieces[k]),
    ensures
        forall|i: int|
            0 <= i < join(pieces, seq!['.']).len() ==> is_digit(#[trigger] join(pieces, seq!['.'])[i]) || join(
                pieces,
                seq!['.'],
            )[i] == '.',
    decreases pieces.len(),
{
    let dot = seq!['.'];
    let s = join(pieces, dot);
    if pieces.len() > 0 {
        let first = pieces[0];
        assert(holds_digits(first));
        if pieces.len() > 1 {
            let rest = pieces.drop_first();
            assert forall|k: int| 0 <= k < rest.len() implies holds_digits(#[trigger] rest[k]) by {
                assert(rest[k] == pieces[k + 1]);
            }
            joining_digits(rest);
            let tail = join(rest, dot);
            assert(s == first + dot + tail);
            assert forall|i: int| 0 <= i < s.len() implies is_digit(#[trigger] s[i]) || s[i] == '.' by {
                if i < first.len() {
                    assert(s[i] == first[i]);
                } else if i == first.len() {
                    assert(s[i] == dot[0]);
                } else {
                    assert(s[i] == tail[i - first.len() - 1]);
                }
            }
        }
    }
}

/// An address in dotted decimal is digits and dots.
pub proof fn only_digits_are_dotted(s: Seq<char>)
    requires
        is_dotted(s),
    ensures
        forall|i: int| 0 <= i < s.len() ==> is_digit(#[trigger] s[i]) || s[i] == '.',
{
    let (a, b, c, d) = choose|a: u8, b: u8, c: u8, d: u8| s == #[trigger] dotted(a, b, c, d);
    decimal_is_read_back(a as nat);
    decimal_is_read_back(b as nat);
    decimal_is_read_back(c as nat);
    decimal_is_read_back(d as nat);
    joining_digits(seq![decimal(a as nat), decimal(b as nat), decimal(c as nat), decimal(d as nat)]);
}

/// Whether `s` is an IPv4 address in dotted decimal.
pub fn is_ipv4(s: &str) -> (out: bool)
    ensures
        out == is_dotted(s@),
{
    proof {
        reveal_strlit(".");
        assert("."@ =~= seq!['.']);
        assert forall|a: u8, b: u8, c: u8, d: u8| s@ == #[trigger] dotted(a, b, c, d) implies split(s@, seq!['.'])
            == seq![decimal(a as nat), decimal(b as nat), decimal(c as nat), decimal(d as nat)] by {
            digits_hold_no_dot(a as nat);
            digits_hold_no_dot(b as nat);
            digits_hold_no_dot(c as nat);
            digits_hold_no_dot(d as nat);
            splitting_undoes_joining(
                seq![decimal(a as nat), decimal(b as nat), decimal(c as nat), decimal(d as nat)],
                '.',
            );
        }
        splitting_loses_nothing(s@, seq!['.']);
    }
    let pieces = split_on(s, ".");
    if pieces.len() != 4 {
        return false;
    }
    proof {
        assert(views(pieces@) =~= seq![pieces@[0]@, pieces@[1]@, pieces@[2]@, pieces@[3]@]);
        assert forall|a: u8, b: u8, c: u8, d: u8| s@ == #[trigger] dotted(a, b, c, d) implies pieces@[0]@ == decimal(
            a as nat,
        ) && pieces@[1]@ == decimal(b as nat) && pieces@[2]@ == decimal(c as nat) && pieces@[3]@ == decimal(d as nat) by {
            assert(views(pieces@)[0] == decimal(a as nat));
            assert(views(pieces@)[1] == decimal(b as nat));
            assert(views(pieces@)[2] == decimal(c as nat));
            assert(views(pieces@)[3] == decimal(d as nat));
        }
    }
    match (
        number(&pieces[0], 255),
        number(&pieces[1], 255),
        number(&pieces[2], 255),
        number(&pieces[3], 255),
    ) {
        (Some(a), Some(b), Some(c), Some(d)) => {
            proof {
                assert(s@ == dotted(a as u8, b as u8, c as u8, d as u8));
            }
            true
        },
        _ => false,
    }
}

/// Whether `s` is an IPv4 address of this machine to itself, in dotted decimal.
pub open spec fn is_loopback(s: Seq<char>) -> bool {
    exists|b: u8, c: u8, d: u8| s == #[trigger] dotted(127, b, c, d)
}

proof fn dotted_begins(a: u8, b: u8, c: u8, d: u8)
    ensures
        dotted(a, b, c, d).len() > decimal(a as nat).len(),
        dotted(a, b, c, d).take(decimal(a as nat).len() as int) == decimal(a as nat),
        dotted(a, b, c, d)[decimal(a as nat).len() as int] == '.',
{
    let pieces = seq![decimal(a as nat), decimal(b as nat), decimal(c as nat), decimal(d as nat)];
    let rest = join(pieces.drop_first(), seq!['.']);
    assert(dotted(a, b, c, d) == pieces[0] + seq!['.'] + rest);
    assert(dotted(a, b, c, d).take(pieces[0].len() as int) =~= pieces[0]);
}

/// Whether `s` is an IPv4 address of this machine to itself, in dotted decimal.
pub fn is_loopback_v4(s: &str) -> (out: bool)
    ensures
        out == is_loopback(s@),
{
    let out: bool = is_ipv4(s) && starts_with(s, "127.");
    proof {
        reveal_strlit("127.");
        reveal_with_fuel(decimal, 3);
        assert(decimal(127) =~= seq!['1', '2', '7']);
        if is_dotted(s@) {
            let (a, b, c, d) = choose|a: u8, b: u8, c: u8, d: u8| s@ == #[trigger] dotted(a, b, c, d);
            dotted_begins(a, b, c, d);
            let first = decimal(a as nat);
            digits_hold_no_dot(a as nat);
            if s@.len() >= 4 && s@.take(4) == "127."@ {
                assert(s@[0] == '1' && s@[1] == '2' && s@[2] == '7' && s@[3] == '.') by {
                    assert(s@.take(4)[0] == s@[0] && s@.take(4)[1] == s@[1]);
                    assert(s@.take(4)[2] == s@[2] && s@.take(4)[3] == s@[3]);
                }
                if first.len() > 3 {
                    assert(first[3] == s@.take(first.len() as int)[3]);
                    assert(first.contains('.'));
                }
                assert(first.len() == 3);
                assert(first[0] == s@.take(3)[0] && first[1] == s@.take(3)[1] && first[2] == s@.take(3)[2]);
                assert(first =~= decimal(127));
                decimals_are_distinct(a as nat, 127);
            }
        }
        if is_loopback(s@) {
            let (b, c, d) = choose|b: u8, c: u8, d: u8| s@ == #[trigger] dotted(127, b, c, d);
            dotted_begins(127, b, c, d);
            assert(s@.take(3) == decimal(127));
            assert(s@.take(3)[0] == s@[0] && s@.take(3)[1] == s@[1] && s@.take(3)[2] == s@[2]);
            assert(s@.take(4) =~= "127."@);
        }
    }
    out
}

// ---------------------------------------------------------------------------
// Lines, bytes and case
// ---------------------------------------------------------------------------

/// A line without the carriage return before its end.
pub open spec fn without_return(line: Seq<char>) -> Seq<char> {
    if line.len() > 0 && line.last() == '\r' {
        line.drop_last()
    } else {
        line
    }
}

/// The lines of a text. A line ends with a line feed or with a carriage return and
/// a line feed; the last one need not end.
pub open spec fn lines(s: Seq<char>) -> Seq<Seq<char>> {
    let pieces = split(s, seq!['\n']);
    let ended = Seq::new((pieces.len() - 1) as nat, |i: int| without_return(pieces[i]));
    if pieces.last().len() == 0 {
        ended
    } else {
        ended.push(pieces.last())
    }
}

/// The lines of a text.
pub fn lines_of(s: &str) -> (out: Vec<String>)
    ensures
        views(out@) == lines(s@),
{
    proof {
        reveal_strlit("\n");
        assert("\n"@ =~= seq!['\n']);
        splitting_loses_nothing(s@, seq!['\n']);
    }
    let ghost pieces = split(s@, seq!['\n']);
    let found: Vec<String> = split_on(s, "\n");
    let ghost all = found@;
    proof {
        assert(views(all) == pieces);
        assert(all.len() == pieces.len());
        split_gives_a_piece(s@, seq!['\n']);
    }
    let mut out: Vec<String> = Vec::new();
    let mut i: usize = 0;
    let last: usize = found.len() - 1;
    while i < last
        invariant
            i <= last,
            last == found@.len() - 1,
            found@ == all,
            views(all) == pieces,
            out@.len() == i,
            forall|j: int| 0 <= j < i ==> (#[trigger] out@[j])@ == without_return(pieces[j]),
        decreases last - i,
    {
        assert(views(all)[i as int] == all[i as int]@);
        let chars = characters(&found[i]);
        if chars.len() > 0 && chars[chars.len() - 1] == '\r' {
            let line = slice(&chars, 0, chars.len() - 1);
            proof {
                assert(pieces[i as int].subrange(0, chars@.len() - 1) =~= pieces[i as int].drop_last());
            }
            out.push(line);
        } else {
            out.push(found[i].clone());
        }
        i += 1;
    }
    assert(views(all)[last as int] == all[last as int]@);
    if !found[last].as_str().is_empty() {
        out.push(found[last].clone());
    }
    proof {
        assert(views(out@) =~= lines(s@));
    }
    out
}

/// Splitting gives at least one piece.
proof fn split_gives_a_piece(s: Seq<char>, separator: Seq<char>)
    requires
        separator.len() > 0,
    ensures
        split(s, separator).len() >= 1,
{
}

/// How many bytes a character takes in UTF-8.
pub open spec fn character_bytes(c: char) -> nat {
    if (c as u32) < 0x80 {
        1
    } else if (c as u32) < 0x800 {
        2
    } else if (c as u32) < 0x1_0000 {
        3
    } else {
        4
    }
}

/// How many bytes a text takes in UTF-8.
pub open spec fn bytes(s: Seq<char>) -> nat
    decreases s.len(),
{
    if s.len() == 0 {
        0
    } else {
        bytes(s.drop_last()) + character_bytes(s.last())
    }
}

/// Whether a text takes more than `limit` bytes in UTF-8.
pub fn takes_more_than(s: &str, limit: u64) -> (out: bool)
    requires
        limit < 0x1_0000_0000,
    ensures
        out == (bytes(s@) > limit),
{
    let chars = characters(s);
    let mut i: usize = 0;
    let mut taken: u64 = 0;
    proof {
        assert(s@.take(0) =~= Seq::<char>::empty());
    }
    while i < chars.len()
        invariant
            chars@ == s@,
            i <= chars@.len(),
            limit < 0x1_0000_0000,
            taken == bytes(s@.take(i as int)),
            taken <= limit,
        decreases chars@.len() - i,
    {
        let n: u32 = chars[i] as u32;
        let more: u64 = if n < 0x80 {
            1
        } else if n < 0x800 {
            2
        } else if n < 0x1_0000 {
            3
        } else {
            4
        };
        proof {
            assert(s@.take(i + 1).drop_last() =~= s@.take(i as int));
            assert(s@.take(i + 1).last() == s@[i as int]);
        }
        taken += more;
        i += 1;
        if taken > limit {
            proof {
                a_beginning_takes_no_more(s@, i as int);
            }
            return true;
        }
    }
    proof {
        assert(s@.take(i as int) =~= s@);
    }
    false
}

/// A beginning of a text takes no more bytes than the text.
proof fn a_beginning_takes_no_more(s: Seq<char>, n: int)
    requires
        0 <= n <= s.len(),
    ensures
        bytes(s.take(n)) <= bytes(s),
    decreases s.len() - n,
{
    if n < s.len() {
        a_beginning_takes_no_more(s, n + 1);
        assert(s.take(n + 1).drop_last() =~= s.take(n));
    } else {
        assert(s.take(n) =~= s);
    }
}

/// What `str::to_lowercase` makes of a text.
pub uninterp spec fn lowercased(text: Seq<char>) -> Seq<char>;

/// `str::to_lowercase`. Claimed: the lower-case form depends on the text alone.
/// Which characters have one is Unicode's, and is not stated.
#[verifier::external_body]
pub(crate) fn to_lowercase(text: &str) -> (out: String)
    ensures
        out@ == lowercased(text@),
{
    text.to_lowercase()
}

// ---------------------------------------------------------------------------
// What the words mean
// ---------------------------------------------------------------------------

/// The characters that count as space.
pub proof fn what_counts_as_space(c: char)
    ensures
        is_space(c) <==> c == '\t' || c == '\n' || c == '\u{b}' || c == '\u{c}' || c == '\r' || c == ' ' || c == '\u{85}'
            || c == '\u{a0}' || c == '\u{1680}' || '\u{2000}' <= c <= '\u{200a}' || c == '\u{2028}' || c == '\u{2029}' || c
            == '\u{202f}' || c == '\u{205f}' || c == '\u{3000}',
{
}

/// Trimming takes space from both ends and from nowhere else, and all of it.
pub proof fn trimming_takes_the_space_around(s: Seq<char>) -> (ends: (int, int))
    ensures
        0 <= ends.0 <= ends.1 <= s.len(),
        trimmed(s) == s.subrange(ends.0, ends.1),
        forall|i: int| 0 <= i < ends.0 ==> is_space(#[trigger] s[i]),
        forall|i: int| ends.1 <= i < s.len() ==> is_space(#[trigger] s[i]),
        trimmed(s).len() > 0 ==> !is_space(trimmed(s)[0]) && !is_space(trimmed(s).last()),
{
    let from = start_of(s);
    let rest = trimmed_start(s);
    let to = end_of(rest);
    assert(trimmed(s) =~= s.subrange(from, from + to));
    assert forall|i: int| from + to <= i < s.len() implies is_space(#[trigger] s[i]) by {
        assert(rest[i - from] == s[i]);
    }
    trimmed_start_is_clean(s);
    trimmed_end_is_clean(rest);
    trimmed_end_keeps_the_start(rest);
    (from, from + to)
}

proof fn start_of(s: Seq<char>) -> (from: int)
    ensures
        0 <= from <= s.len(),
        trimmed_start(s) == s.skip(from),
        forall|i: int| 0 <= i < from ==> is_space(#[trigger] s[i]),
    decreases s.len(),
{
    if s.len() > 0 && is_space(s[0]) {
        let from = start_of(s.drop_first());
        assert(s.drop_first().skip(from) =~= s.skip(from + 1));
        assert forall|i: int| 0 <= i < from + 1 implies is_space(#[trigger] s[i]) by {
            if i > 0 {
                assert(s.drop_first()[i - 1] == s[i]);
            }
        }
        from + 1
    } else {
        assert(s.skip(0) =~= s);
        0
    }
}

proof fn end_of(s: Seq<char>) -> (to: int)
    ensures
        0 <= to <= s.len(),
        trimmed_end(s) == s.take(to),
        forall|i: int| to <= i < s.len() ==> is_space(#[trigger] s[i]),
    decreases s.len(),
{
    if s.len() > 0 && is_space(s.last()) {
        let to = end_of(s.drop_last());
        assert(s.drop_last().take(to) =~= s.take(to));
        assert forall|i: int| to <= i < s.len() implies is_space(#[trigger] s[i]) by {
            if i < s.len() - 1 {
                assert(s.drop_last()[i] == s[i]);
            }
        }
        to
    } else {
        assert(s.take(s.len() as int) =~= s);
        s.len() as int
    }
}

/// Lowering moves each capital of the alphabet to its small letter and leaves every
/// other character alone; capitalising raises the first alone.
pub proof fn lowering_moves_capitals_alone(s: Seq<char>, i: int)
    requires
        0 <= i < s.len(),
    ensures
        ascii_lowered(s).len() == s.len(),
        'A' <= s[i] <= 'Z' ==> ascii_lowered(s)[i] as u32 - 'a' as u32 == s[i] as u32 - 'A' as u32,
        !('A' <= s[i] <= 'Z') ==> ascii_lowered(s)[i] == s[i],
        capitalised(s).len() == s.len(),
        'a' <= s[0] <= 'z' ==> capitalised(s)[0] as u32 - 'A' as u32 == s[0] as u32 - 'a' as u32,
        !('a' <= s[0] <= 'z') ==> capitalised(s)[0] == s[0],
        i > 0 ==> capitalised(s)[i] == s[i],
        capitalised(Seq::<char>::empty()) == Seq::<char>::empty(),
{
}

/// A text that goes on is behind the text it goes on from, and of two that part ways
/// the one with the lesser character is before.
pub proof fn texts_are_ordered_where_they_part(p: Seq<char>, a: Seq<char>, b: Seq<char>)
    ensures
        b.len() > 0 ==> before(p, p + b),
        a.len() > 0 && b.len() > 0 && a[0] < b[0] ==> before(p + a, p + b),
        !before(p + a, p),
    decreases p.len(),
{
    if p.len() > 0 {
        let rest = p.drop_first();
        assert((p + a).drop_first() =~= rest + a);
        assert((p + b).drop_first() =~= rest + b);
        texts_are_ordered_where_they_part(rest, a, b);
    } else {
        assert(p + a =~= a);
        assert(p + b =~= b);
    }
}

/// A number is written without a leading zero, and nought as one digit.
pub proof fn no_number_leads_with_nought(n: nat)
    ensures
        decimal(n).len() > 0,
        n > 0 ==> decimal(n)[0] != '0',
        n < 10 ==> decimal(n).len() == 1 && decimal(n)[0] as u32 == 48 + n,
    decreases n,
{
    if n >= 10 {
        no_number_leads_with_nought(n / 10);
    }
}

/// An address is its four numbers with dots between them, and this machine's where
/// the first of them is 127.
pub proof fn an_address_is_this_machines_by_its_first_number(a: u8, b: u8, c: u8, d: u8)
    ensures
        dotted(a, b, c, d) == decimal(a as nat) + "."@ + (decimal(b as nat) + "."@ + (decimal(c as nat) + "."@ + decimal(
            d as nat,
        ))),
        is_dotted(dotted(a, b, c, d)),
        is_loopback(dotted(a, b, c, d)) <==> a == 127,
{
    reveal_strlit(".");
    assert("."@ =~= seq!['.']);
    let pieces = seq![decimal(a as nat), decimal(b as nat), decimal(c as nat), decimal(d as nat)];
    let two = pieces.drop_first();
    let three = two.drop_first();
    let four = three.drop_first();
    assert(four[0] == pieces[3] && three[0] == pieces[2] && two[0] == pieces[1]);
    assert(join(four, seq!['.']) == pieces[3]);
    assert(join(three, seq!['.']) == pieces[2] + seq!['.'] + join(four, seq!['.']));
    assert(join(two, seq!['.']) == pieces[1] + seq!['.'] + join(three, seq!['.']));
    if is_loopback(dotted(a, b, c, d)) {
        let (x, y, z) = choose|x: u8, y: u8, z: u8| dotted(a, b, c, d) == #[trigger] dotted(127, x, y, z);
        first_numbers_agree(a, b, c, d, x, y, z);
    }
}

proof fn first_numbers_agree(a: u8, b: u8, c: u8, d: u8, x: u8, y: u8, z: u8)
    requires
        dotted(a, b, c, d) == dotted(127, x, y, z),
    ensures
        a == 127,
{
    let left = seq![decimal(a as nat), decimal(b as nat), decimal(c as nat), decimal(d as nat)];
    let right = seq![decimal(127), decimal(x as nat), decimal(y as nat), decimal(z as nat)];
    digits_hold_no_dot(a as nat);
    digits_hold_no_dot(b as nat);
    digits_hold_no_dot(c as nat);
    digits_hold_no_dot(d as nat);
    digits_hold_no_dot(127);
    digits_hold_no_dot(x as nat);
    digits_hold_no_dot(y as nat);
    digits_hold_no_dot(z as nat);
    splitting_undoes_joining(left, '.');
    splitting_undoes_joining(right, '.');
    assert(left[0] == right[0]);
    decimals_are_distinct(a as nat, 127);
}

/// Only the first place of a text is replaced, and nothing where it does not occur.
pub proof fn the_first_place_is_replaced(s: Seq<char>, from: Seq<char>, to: Seq<char>, i: int)
    ensures
        !occurs(s, from) ==> replaced_first(s, from, to) == s,
        stands_at(s, from, i) && (forall|j: int| 0 <= j < i ==> !stands_at(s, from, j)) ==> replaced_first(s, from, to)
            == s.take(i) + to + s.skip(i + from.len()),
{
    next_place_is_first(s, from, 0);
    if let Some(k) = next_place(s, from, 0) {
        assert(occurs(s, from));
    }
}

/// Of a trailing character nothing is left, and nothing else is taken.
pub proof fn what_trails_is_taken(s: Seq<char>, c: char)
    ensures
        without_trailing(s.push(c), c) == without_trailing(s, c),
        s.len() > 0 && s.last() != c ==> without_trailing(s, c) == s,
        without_trailing(Seq::<char>::empty(), c) == Seq::<char>::empty(),
{
    assert(s.push(c).drop_last() =~= s);
}

/// A line ends at its line feed, and a carriage return before that is not part of it.
pub proof fn a_line_ends_at_its_feed(pieces: Seq<Seq<char>>, i: int)
    requires
        pieces.len() > 0,
        forall|k: int| 0 <= k < pieces.len() ==> !(#[trigger] pieces[k]).contains('\n'),
    ensures
        ({
            let found = lines(join(pieces, "\n"@));
            &&& pieces.last().len() == 0 ==> found.len() == pieces.len() - 1
            &&& pieces.last().len() > 0 ==> found.len() == pieces.len() && found.last() == pieces.last()
            &&& 0 <= i < pieces.len() - 1 && pieces[i].len() > 0 && pieces[i].last() == '\r' ==> found[i]
                == pieces[i].drop_last()
            &&& 0 <= i < pieces.len() - 1 && !(pieces[i].len() > 0 && pieces[i].last() == '\r') ==> found[i] == pieces[i]
        }),
{
    reveal_strlit("\n");
    assert("\n"@ =~= seq!['\n']);
    splitting_undoes_joining(pieces, '\n');
}

/// A text takes as many bytes as its encoding holds.
pub proof fn a_text_takes_the_bytes_of_its_encoding(s: Seq<char>)
    ensures
        bytes(s) == vstd::utf8::encode_utf8(s).len(),
    decreases s.len(),
{
    if s.len() > 0 {
        let rest = s.drop_first();
        a_text_takes_the_bytes_of_its_encoding(rest);
        assert(seq![s[0]] + rest =~= s);
        bytes_add_up(seq![s[0]], rest);
        assert(seq![s[0]].drop_last() =~= Seq::<char>::empty());
        assert(bytes(seq![s[0]]) == bytes(Seq::<char>::empty()) + character_bytes(s[0]));
        let n = s[0] as u32;
        vstd::utf8::char_is_scalar(s[0]);
        assert(n < 0x80 <==> vstd::utf8::has_width_1_encoding(n));
        assert(0x80 <= n < 0x800 <==> vstd::utf8::has_width_2_encoding(n));
        assert(0x800 <= n < 0x1_0000 <==> vstd::utf8::has_width_3_encoding(n));
        assert(vstd::utf8::encode_scalar(n).len() == character_bytes(s[0]));
    }
}

proof fn bytes_add_up(a: Seq<char>, b: Seq<char>)
    ensures
        bytes(a + b) == bytes(a) + bytes(b),
    decreases b.len(),
{
    if b.len() > 0 {
        assert((a + b).drop_last() =~= a + b.drop_last());
        bytes_add_up(a, b.drop_last());
    } else {
        assert(a + b =~= a);
    }
}

} // verus!
