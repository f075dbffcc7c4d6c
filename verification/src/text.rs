//! Text primitives shared by the cookie, header and URL modules: splitting,
//! trimming, prefix tests and decimal numbers, each with a direct
//! specification over sequences of characters.

use vstd::prelude::*;

verus! {

/// `String::push` appends one character to the end of the string.
pub assume_specification[ String::push ](s: &mut String, c: char)
    ensures
        final(s)@ == old(s)@.push(c),
;

/// What `{:?}` prints for a text: the text in double quotes, with the
/// characters that need it escaped.
pub uninterp spec fn quoted_text(s: Seq<char>) -> Seq<char>;

/// The `Debug` form of a text, as `format!` renders it.
#[verifier::external_body]
pub(crate) fn quoted(s: &str) -> (q: String)
    ensures
        q@ == quoted_text(s@),
{
    format!("{s:?}")
}

/// The texts a list of strings holds.
pub open spec fn texts(v: Seq<String>) -> Seq<Seq<char>> {
    v.map_values(|s: String| s@)
}

/// The text an optional string holds.
pub open spec fn opt_text(o: Option<String>) -> Option<Seq<char>> {
    match o {
        Some(s) => Some(s@),
        None => None,
    }
}

/// The text an optional string slice holds.
pub open spec fn opt_str(o: Option<&str>) -> Option<Seq<char>> {
    match o {
        Some(s) => Some(s@),
        None => None,
    }
}

/// The characters of `s`.
pub fn chars_of(s: &str) -> (v: Vec<char>)
    ensures
        v@ == s@,
{
    let mut v: Vec<char> = Vec::new();
    for c in iter: s.chars()
        invariant
            v@ == s@.take(iter.index() as int),
            iter.seq() == s@,
    {
        v.push(c);
    }
    v
}

/// The string made of the characters from `from` up to, not counting, `to`.
pub fn string_of(v: &Vec<char>, from: usize, to: usize) -> (s: String)
    requires
        from <= to <= v@.len(),
    ensures
        s@ == v@.subrange(from as int, to as int),
{
    let mut s = String::new();
    let mut i: usize = from;
    while i < to
        invariant
            from <= i <= to <= v@.len(),
            s@ == v@.subrange(from as int, i as int),
        decreases to - i,
    {
        s.push(v[i]);
        i = i + 1;
    }
    s
}

/// Whether two texts are the same.
pub fn same_text(a: &str, b: &str) -> (r: bool)
    ensures
        r == (a@ == b@),
{
    a.to_owned() == b.to_owned()
}

/// A character, in lower case if it is an ASCII letter.
pub open spec fn lower(c: char) -> char {
    if 'A' <= c <= 'Z' {
        (c as int + 32) as char
    } else {
        c
    }
}

/// A character, in lower case if it is an ASCII letter.
pub fn to_lower(c: char) -> (r: char)
    ensures
        r == lower(c),
{
    if c >= 'A' && c <= 'Z' {
        (c as u8 + 32) as char
    } else {
        c
    }
}

/// Whether `s` begins with `prefix`.
pub fn has_prefix(s: &str, prefix: &str) -> (r: bool)
    ensures
        r == prefix@.is_prefix_of(s@),
{
    let v = chars_of(s);
    let p = chars_of(prefix);
    if p.len() > v.len() {
        return false;
    }
    let mut i: usize = 0;
    while i < p.len()
        invariant
            i <= p@.len() <= v@.len(),
            p@.take(i as int) == v@.take(i as int),
            v@ == s@,
            p@ == prefix@,
        decreases p@.len() - i,
    {
        if v[i] != p[i] {
            proof {
                assert(prefix@.is_prefix_of(s@) ==> p@[i as int] == v@.subrange(
                    0,
                    p@.len() as int,
                )[i as int]);
            }
            return false;
        }
        proof {
            assert(p@.take(i + 1) =~= p@.take(i as int).push(p@[i as int]));
            assert(v@.take(i + 1) =~= v@.take(i as int).push(v@[i as int]));
        }
        i = i + 1;
    }
    proof {
        assert(p@.take(p@.len() as int) =~= p@);
        assert(v@.take(p@.len() as int) =~= v@.subrange(0, p@.len() as int));
    }
    true
}

/// What follows `prefix` in `s`, when `s` begins with it.
pub open spec fn after_prefix(s: Seq<char>, prefix: Seq<char>) -> Option<Seq<char>> {
    if prefix.is_prefix_of(s) {
        Some(s.skip(prefix.len() as int))
    } else {
        None
    }
}

/// What follows `prefix` in `s`, or `None` when `s` does not begin with it.
pub fn strip_prefix(s: &str, prefix: &str) -> (r: Option<String>)
    ensures
        opt_text(r) == after_prefix(s@, prefix@),
{
    if !has_prefix(s, prefix) {
        return None;
    }
    let v = chars_of(s);
    let p = chars_of(prefix);
    let rest = string_of(&v, p.len(), v.len());
    proof {
        assert(rest@ =~= s@.skip(prefix@.len() as int));
    }
    Some(rest)
}

/// Whether `part` occurs in `s` as consecutive characters.
pub open spec fn has_part(s: Seq<char>, part: Seq<char>) -> bool {
    exists|i: int|
        0 <= i && i + part.len() <= s.len() && #[trigger] s.subrange(i, i + part.len()) == part
}

/// Whether `part` occurs in `s` as consecutive characters.
pub fn contains_text(s: &str, part: &str) -> (r: bool)
    ensures
        r == has_part(s@, part@),
{
    let v = chars_of(s);
    let p = chars_of(part);
    if p.len() > v.len() {
        return false;
    }
    let mut i: usize = 0;
    let total: usize = v.len();
    let last: usize = total - p.len();
    loop
        invariant
            i <= last,
            total == v@.len(),
            last + p@.len() == v@.len(),
            v@ == s@,
            p@ == part@,
            forall|k: int| 0 <= k < i ==> #[trigger] v@.subrange(k, k + p@.len()) != p@,
        decreases last - i,
    {
        let mut j: usize = 0;
        while j < p.len() && v[i + j] == p[j]
            invariant
                j <= p@.len(),
                i <= last,
                total == v@.len(),
                last + p@.len() == v@.len(),
                forall|k: int| 0 <= k < j ==> v@[i + k] == p@[k],
            decreases p@.len() - j,
        {
            j = j + 1;
        }
        if j == p.len() {
            proof {
                assert(v@.subrange(i as int, i + p@.len()) =~= p@);
            }
            return true;
        }
        proof {
            assert(v@.subrange(i as int, i + p@.len())[j as int] == v@[i + j]);
        }
        if i == last {
            proof {
                assert forall|k: int| 0 <= k && k + p@.len() <= v@.len() implies #[trigger] v@.subrange(
                    k,
                    k + p@.len(),
                ) != p@ by {}
            }
            return false;
        }
        i = i + 1;
    }
}

/// The pieces of `s` between the separators, empty ones kept: one more piece
/// than there are separators.
pub open spec fn pieces(s: Seq<char>, sep: char) -> Seq<Seq<char>>
    decreases s.len(),
{
    if s.len() == 0 {
        seq![Seq::<char>::empty()]
    } else {
        let before = pieces(s.drop_last(), sep);
        if s.last() == sep {
            before.push(Seq::empty())
        } else {
            before.drop_last().push(before.last().push(s.last()))
        }
    }
}

/// Splits `s` at every `sep`.
pub fn split(s: &str, sep: char) -> (r: Vec<String>)
    ensures
        texts(r@) == pieces(s@, sep),
{
    let v = chars_of(s);
    let mut done: Vec<String> = Vec::new();
    let mut piece = String::new();
    let mut i: usize = 0;
    proof {
        assert(v@.take(0) =~= Seq::<char>::empty());
        assert(pieces(v@.take(0), sep) =~= texts(done@).push(piece@));
    }
    while i < v.len()
        invariant
            i <= v@.len(),
            pieces(v@.take(i as int), sep) == texts(done@).push(piece@),
        decreases v@.len() - i,
    {
        let c = v[i];
        proof {
            assert(v@.take(i + 1).drop_last() =~= v@.take(i as int));
            assert(v@.take(i + 1).last() == c);
            assert(texts(done@).push(piece@).drop_last() =~= texts(done@));
        }
        if c == sep {
            let ghost before = texts(done@);
            done.push(piece);
            piece = String::new();
            proof {
                assert(texts(done@) =~= before.push(done@.last()@));
            }
        } else {
            piece.push(c);
        }
        i = i + 1;
    }
    let ghost before = texts(done@);
    done.push(piece);
    proof {
        assert(texts(done@) =~= before.push(done@.last()@));
        assert(v@.take(v@.len() as int) =~= v@);
    }
    done
}

/// The two sides of the first `sep` in `s`.
pub open spec fn halves(s: Seq<char>, sep: char) -> Option<(Seq<char>, Seq<char>)>
    decreases s.len(),
{
    if s.len() == 0 {
        None
    } else if s[0] == sep {
        Some((Seq::empty(), s.skip(1)))
    } else {
        match halves(s.skip(1), sep) {
            Some((left, right)) => Some((seq![s[0]] + left, right)),
            None => None,
        }
    }
}

/// When the first `sep` stands at `i`, the halves are what lies around it.
pub proof fn lemma_halves_at(s: Seq<char>, sep: char, i: int)
    requires
        0 <= i < s.len(),
        s[i] == sep,
        forall|k: int| 0 <= k < i ==> s[k] != sep,
    ensures
        halves(s, sep) == Some((s.take(i), s.skip(i + 1))),
    decreases i,
{
    if i == 0 {
        assert(s.take(0) =~= Seq::<char>::empty());
    } else {
        let t = s.skip(1);
        assert forall|k: int| 0 <= k < i - 1 implies t[k] != sep by {
            assert(t[k] == s[k + 1]);
        }
        lemma_halves_at(t, sep, i - 1);
        assert(seq![s[0]] + t.take(i - 1) =~= s.take(i));
        assert(t.skip(i) =~= s.skip(i + 1));
    }
}

/// Without a `sep` there are no halves.
pub proof fn lemma_halves_none(s: Seq<char>, sep: char)
    requires
        forall|k: int| 0 <= k < s.len() ==> s[k] != sep,
    ensures
        halves(s, sep) is None,
    decreases s.len(),
{
    if s.len() > 0 {
        assert forall|k: int| 0 <= k < s.skip(1).len() implies s.skip(1)[k] != sep by {
            assert(s.skip(1)[k] == s[k + 1]);
        }
        lemma_halves_none(s.skip(1), sep);
    }
}

/// Splits `s` at its first `sep`.
pub fn split_once(s: &str, sep: char) -> (r: Option<(String, String)>)
    ensures
        match r {
            Some((left, right)) => halves(s@, sep) == Some((left@, right@)),
            None => halves(s@, sep) is None,
        },
{
    let v = chars_of(s);
    let mut i: usize = 0;
    while i < v.len()
        invariant
            i <= v@.len(),
            v@ == s@,
            forall|k: int| 0 <= k < i ==> v@[k] != sep,
        decreases v@.len() - i,
    {
        if v[i] == sep {
            let left = string_of(&v, 0, i);
            let right = string_of(&v, i + 1, v.len());
            proof {
                lemma_halves_at(s@, sep, i as int);
                assert(left@ =~= s@.take(i as int));
                assert(right@ =~= s@.skip(i + 1));
            }
            return Some((left, right));
        }
        i = i + 1;
    }
    proof {
        lemma_halves_none(s@, sep);
    }
    None
}

/// A character with the Unicode `White_Space` property.
pub open spec fn is_blank(c: char) -> bool {
    ||| '\t' <= c <= '\r'
    ||| c == ' '
    ||| c == '\u{85}'
    ||| c == '\u{a0}'
    ||| c == '\u{1680}'
    ||| '\u{2000}' <= c <= '\u{200a}'
    ||| c == '\u{2028}'
    ||| c == '\u{2029}'
    ||| c == '\u{202f}'
    ||| c == '\u{205f}'
    ||| c == '\u{3000}'
}

/// Whether `c` has the Unicode `White_Space` property.
fn blank(c: char) -> (r: bool)
    ensures
        r == is_blank(c),
{
    ('\t' <= c && c <= '\r') || c == ' ' || c == '\u{85}' || c == '\u{a0}' || c == '\u{1680}' || (
    '\u{2000}' <= c && c <= '\u{200a}') || c == '\u{2028}' || c == '\u{2029}' || c == '\u{202f}' || c
        == '\u{205f}' || c == '\u{3000}'
}

/// `s` without the blanks it begins with.
pub open spec fn trim_start(s: Seq<char>) -> Seq<char>
    decreases s.len(),
{
    if s.len() > 0 && is_blank(s[0]) {
        trim_start(s.skip(1))
    } else {
        s
    }
}

/// `s` without the blanks it ends in.
pub open spec fn trim_end(s: Seq<char>) -> Seq<char>
    decreases s.len(),
{
    if s.len() > 0 && is_blank(s.last()) {
        trim_end(s.drop_last())
    } else {
        s
    }
}

/// `s` without the blanks around it.
pub open spec fn trimmed(s: Seq<char>) -> Seq<char> {
    trim_end(trim_start(s))
}

/// `s` without the blanks around it.
pub fn trim(s: &str) -> (r: String)
    ensures
        r@ == trimmed(s@),
{
    let v = chars_of(s);
    let mut from: usize = 0;
    proof {
        assert(v@.skip(0) =~= v@);
    }
    while from < v.len() && blank(v[from])
        invariant
            from <= v@.len(),
            trim_start(v@) == trim_start(v@.skip(from as int)),
        decreases v@.len() - from,
    {
        proof {
            assert(v@.skip(from as int).skip(1) =~= v@.skip(from + 1));
        }
        from = from + 1;
    }
    let ghost start = v@.skip(from as int);
    proof {
        assert(trim_start(v@) == start);
        assert(start =~= v@.subrange(from as int, v@.len() as int));
    }
    let mut to: usize = v.len();
    while to > from && blank(v[to - 1])
        invariant
            from <= to <= v@.len(),
            trim_end(start) == trim_end(v@.subrange(from as int, to as int)),
        decreases to,
    {
        proof {
            assert(v@.subrange(from as int, to as int).drop_last() =~= v@.subrange(
                from as int,
                to - 1,
            ));
        }
        to = to - 1;
    }
    string_of(&v, from, to)
}

/// `s` without the `c`s it ends in.
pub open spec fn trim_end_of(s: Seq<char>, c: char) -> Seq<char>
    decreases s.len(),
{
    if s.len() > 0 && s.last() == c {
        trim_end_of(s.drop_last(), c)
    } else {
        s
    }
}

/// `s` without the `c`s it ends in.
pub fn trim_end_char(s: &str, c: char) -> (r: String)
    ensures
        r@ == trim_end_of(s@, c),
{
    let v = chars_of(s);
    let mut to: usize = v.len();
    proof {
        assert(v@.subrange(0, to as int) =~= v@);
    }
    while to > 0 && v[to - 1] == c
        invariant
            to <= v@.len(),
            trim_end_of(v@, c) == trim_end_of(v@.subrange(0, to as int), c),
        decreases to,
    {
        proof {
            assert(v@.subrange(0, to as int).drop_last() =~= v@.subrange(0, to - 1));
        }
        to = to - 1;
    }
    string_of(&v, 0, to)
}

/// The digit for a number below ten.
pub open spec fn digit(d: nat) -> char {
    (48 + d) as char
}

/// The decimal notation of `n`, without leading zeros.
pub open spec fn decimal(n: nat) -> Seq<char>
    decreases n,
{
    if n < 10 {
        seq![digit(n)]
    } else {
        decimal(n / 10).push(digit(n % 10))
    }
}

/// The decimal notation of `n`.
pub fn to_decimal(n: u128) -> (s: String)
    ensures
        s@ == decimal(n as nat),
    decreases n,
{
    if n < 10 {
        let mut s = String::new();
        s.push((48u8 + n as u8) as char);
        s
    } else {
        let mut s = to_decimal(n / 10);
        s.push((48u8 + (n % 10) as u8) as char);
        s
    }
}

/// An ASCII digit.
pub open spec fn is_digit(c: char) -> bool {
    '0' <= c && c <= '9'
}

/// The number that a run of digits denotes.
pub open spec fn numeral(s: Seq<char>) -> nat
    decreases s.len(),
{
    if s.len() == 0 {
        0
    } else {
        numeral(s.drop_last()) * 10 + (s.last() as nat - 48) as nat
    }
}

/// The digits of a numeral, after the one `+` it may begin with.
pub open spec fn unsigned_digits(s: Seq<char>) -> Seq<char> {
    if s.len() > 1 && s[0] == '+' {
        s.skip(1)
    } else {
        s
    }
}

/// Whether `s` is a run of digits, at least one, possibly after a `+`.
pub open spec fn is_numeral(s: Seq<char>) -> bool {
    let d = unsigned_digits(s);
    d.len() > 0 && forall|i: int| 0 <= i < d.len() ==> is_digit(#[trigger] d[i])
}

/// The index that `s` spells out, when it is a numeral within `usize`.
pub open spec fn index_in(s: Seq<char>) -> Option<usize> {
    if is_numeral(s) && numeral(unsigned_digits(s)) <= usize::MAX {
        Some(numeral(unsigned_digits(s)) as usize)
    } else {
        None
    }
}

proof fn lemma_numeral_grows(s: Seq<char>, i: int)
    requires
        0 <= i <= s.len(),
        forall|k: int| 0 <= k < s.len() ==> is_digit(#[trigger] s[k]),
    ensures
        numeral(s.take(i)) <= numeral(s),
    decreases s.len() - i,
{
    if i < s.len() {
        assert(s.take(i + 1).drop_last() =~= s.take(i));
        assert(numeral(s.take(i)) <= numeral(s.take(i + 1)));
        lemma_numeral_grows(s, i + 1);
    } else {
        assert(s.take(i) =~= s);
    }
}

/// Reads an index: an optional `+`, then digits, within `usize`.
pub fn parse_index(s: &str) -> (r: Option<usize>)
    ensures
        r == index_in(s@),
{
    let v = chars_of(s);
    let mut from: usize = 0;
    if v.len() > 1 && v[0] == '+' {
        from = 1;
    }
    let ghost d = v@.skip(from as int);
    proof {
        assert(d =~= unsigned_digits(s@));
    }
    if from == v.len() {
        return None;
    }
    let mut n: usize = 0;
    let mut i: usize = from;
    proof {
        assert(d.take(0) =~= Seq::<char>::empty());
    }
    while i < v.len()
        invariant
            from <= i <= v@.len(),
            v@ == s@,
            d == v@.skip(from as int),
            d == unsigned_digits(s@),
            n == numeral(d.take(i - from)),
            forall|k: int| 0 <= k < i - from ==> is_digit(#[trigger] d[k]),
        decreases v@.len() - i,
    {
        let c = v[i];
        proof {
            assert(d[i - from] == c);
            assert(d.take(i - from + 1).drop_last() =~= d.take(i - from));
        }
        if c < '0' || c > '9' {
            return None;
        }
        let add: usize = (c as u32 - 48) as usize;
        let ghost all = forall|k: int| 0 <= k < d.len() ==> is_digit(#[trigger] d[k]);
        proof {
            if all {
                lemma_numeral_grows(d, i - from + 1);
            }
        }
        match n.checked_mul(10) {
            Some(tens) => {
                match tens.checked_add(add) {
                    Some(next) => {
                        n = next;
                    },
                    None => {
                        return None;
                    },
                }
            },
            None => {
                return None;
            },
        }
        i = i + 1;
    }
    proof {
        assert(d.take(d.len() as int) =~= d);
    }
    Some(n)
}

/// Reading back the decimal notation of a number gives the number.
pub proof fn lemma_decimal_reads_back(n: nat)
    ensures
        decimal(n).len() > 0,
        forall|i: int| 0 <= i < decimal(n).len() ==> is_digit(#[trigger] decimal(n)[i]),
        numeral(decimal(n)) == n,
    decreases n,
{
    if n < 10 {
        assert(decimal(n).drop_last() =~= Seq::<char>::empty());
        assert(numeral(decimal(n).drop_last()) == 0);
    } else {
        lemma_decimal_reads_back(n / 10);
        assert(decimal(n).drop_last() =~= decimal(n / 10));
    }
}

/// An index read back from its decimal notation is the index.
pub proof fn lemma_index_reads_back(i: usize)
    ensures
        index_in(decimal(i as nat)) == Some(i),
{
    lemma_decimal_reads_back(i as nat);
    let d = decimal(i as nat);
    assert(is_digit(d[0]));
    assert(unsigned_digits(d) == d);
}

// -- Laws of the primitives --

proof fn lemma_trim_end_of(s: Seq<char>, c: char)
    ensures
        trim_end_of(s, c).len() <= s.len(),
        trim_end_of(s, c) == s.take(trim_end_of(s, c).len() as int),
        trim_end_of(s, c).len() == 0 || trim_end_of(s, c).last() != c,
        forall|i: int| trim_end_of(s, c).len() <= i < s.len() ==> s[i] == c,
    decreases s.len(),
{
    if s.len() > 0 && s.last() == c {
        lemma_trim_end_of(s.drop_last(), c);
        let n = trim_end_of(s, c).len() as int;
        assert(s.drop_last().take(n) =~= s.take(n));
        assert forall|i: int| n <= i < s.len() implies s[i] == c by {
            if i < s.len() - 1 {
                assert(s.drop_last()[i] == s[i]);
            }
        }
    } else {
        assert(s.take(s.len() as int) =~= s);
    }
}

/// Trimming a character off the end takes off all of it, and nothing else.
pub proof fn law_trim_end_takes_off_all(s: &str, c: char, r: String)
    requires
        call_ensures(trim_end_char, (s, c), r),
    ensures
        r@.len() <= s@.len(),
        r@ == s@.take(r@.len() as int),
        r@.len() == 0 || r@.last() != c,
        forall|i: int| r@.len() <= i < s@.len() ==> s@[i] == c,
        r@ == trim_end_of(s@, c),
{
    lemma_trim_end_of(s@, c);
}

/// A text without trailing `c`s is what trimming leaves of it with any number
/// of them behind it.
pub proof fn law_trim_end_undoes_padding(s: Seq<char>, c: char, padding: Seq<char>)
    requires
        s.len() == 0 || s.last() != c,
        forall|i: int| 0 <= i < padding.len() ==> padding[i] == c,
    ensures
        trim_end_of(s + padding, c) == s,
    decreases padding.len(),
{
    if padding.len() == 0 {
        assert(s + padding =~= s);
    } else {
        assert((s + padding).last() == padding[padding.len() - 1]);
        assert((s + padding).drop_last() =~= s + padding.drop_last());
        law_trim_end_undoes_padding(s, c, padding.drop_last());
    }
}

/// What is left behind a prefix is what has to follow it to make the text
/// again; nothing is left exactly where the text does not begin with it.
pub proof fn law_prefix_and_rest_make_the_text(s: &str, prefix: &str, r: Option<String>, has: bool)
    requires
        call_ensures(strip_prefix, (s, prefix), r),
        call_ensures(has_prefix, (s, prefix), has),
    ensures
        r matches Some(rest) ==> prefix@ + rest@ == s@,
        r is None ==> forall|rest: Seq<char>| #[trigger] (prefix@ + rest) != s@,
        has <==> r is Some,
        opt_text(r) == after_prefix(s@, prefix@),
{
    if let Some(rest) = r {
        assert(prefix@ =~= s@.subrange(0, prefix@.len() as int));
        assert(prefix@ + rest@ =~= s@);
    } else {
        assert forall|rest: Seq<char>| #[trigger] (prefix@ + rest) != s@ by {
            if prefix@ + rest == s@ {
                assert(s@.subrange(0, prefix@.len() as int) =~= prefix@);
            }
        }
    }
}

/// A part occurs in a text exactly when the text is something, the part, and
/// something.
pub proof fn law_part_has_surroundings(
    s: &str,
    part: &str,
    before: Seq<char>,
    after: Seq<char>,
    r: bool,
)
    requires
        call_ensures(contains_text, (s, part), r),
    ensures
        s@ == before + part@ + after ==> r,
        r ==> exists|i: int|
            0 <= i && i + part@.len() <= s@.len() && s@ == #[trigger] s@.take(i) + part@ + s@.skip(
                i + part@.len(),
            ),
        r == has_part(s@, part@),
{
    if s@ == before + part@ + after {
        let i = before.len() as int;
        assert(s@.subrange(i, i + part@.len()) =~= part@);
    }
    if r {
        let i = choose|i: int|
            0 <= i && i + part@.len() <= s@.len() && #[trigger] s@.subrange(i, i + part@.len())
                == part@;
        assert(s@.take(i) + s@.subrange(i, i + part@.len()) + s@.skip(i + part@.len()) =~= s@);
    }
}

proof fn lemma_pieces_not_empty(s: Seq<char>, sep: char)
    ensures
        pieces(s, sep).len() > 0,
    decreases s.len(),
{
    if s.len() > 0 {
        lemma_pieces_not_empty(s.drop_last(), sep);
    }
}

/// Splitting takes a text apart at its separators: what stands before one and
/// what stands behind it are split on their own, and a text without any is one
/// piece.
pub proof fn law_split_takes_apart(a: Seq<char>, sep: char, b: Seq<char>)
    ensures
        pieces(a.push(sep) + b, sep) == pieces(a, sep) + pieces(b, sep),
        !a.contains(sep) ==> pieces(a, sep) == seq![a],
    decreases a.len() + b.len(),
{
    if b.len() == 0 {
        assert(a.push(sep) + b =~= a.push(sep));
        assert(a.push(sep).drop_last() =~= a);
        assert(pieces(a, sep).push(Seq::empty()) =~= pieces(a, sep) + seq![Seq::<char>::empty()]);
    } else {
        let s = a.push(sep) + b;
        assert(s.drop_last() =~= a.push(sep) + b.drop_last());
        assert(s.last() == b.last());
        law_split_takes_apart(a, sep, b.drop_last());
        lemma_pieces_not_empty(b.drop_last(), sep);
        let before = pieces(b.drop_last(), sep);
        if b.last() == sep {
            assert((pieces(a, sep) + before).push(Seq::empty()) =~= pieces(a, sep) + before.push(
                Seq::empty(),
            ));
        } else {
            assert((pieces(a, sep) + before).drop_last() =~= pieces(a, sep) + before.drop_last());
            assert((pieces(a, sep) + before).last() == before.last());
            assert((pieces(a, sep) + before.drop_last()).push(before.last().push(b.last()))
                =~= pieces(a, sep) + before.drop_last().push(before.last().push(b.last())));
        }
    }
    if !a.contains(sep) && a.len() > 0 {
        assert forall|k: int| 0 <= k < a.drop_last().len() implies a.drop_last()[k] != sep by {
            assert(a.contains(a[k]));
        }
        assert(!a.drop_last().contains(sep));
        assert(a.contains(a.last()));
        law_split_takes_apart(a.drop_last(), sep, Seq::empty());
        assert(seq![a.drop_last()].drop_last() =~= Seq::<Seq<char>>::empty());
        assert(a.drop_last().push(a.last()) =~= a);
        assert(pieces(a, sep) =~= seq![a]);
    } else if a.len() == 0 {
        assert(a =~= Seq::<char>::empty());
    }
}

/// A text is split once at its first separator: left of it there is none, and
/// both sides with it between them are the text. Without one it is not split.
pub proof fn law_split_once_at_the_first(s: &str, sep: char, r: Option<(String, String)>)
    requires
        call_ensures(split_once, (s, sep), r),
    ensures
        r matches Some((left, right)) ==> !left@.contains(sep) && s@ == left@.push(sep) + right@,
        r is None ==> !s@.contains(sep),
{
    lemma_halves_make_the_text(s@, sep);
}

proof fn lemma_halves_make_the_text(s: Seq<char>, sep: char)
    ensures
        halves(s, sep) matches Some((left, right)) ==> !left.contains(sep) && s == left.push(sep)
            + right,
        halves(s, sep) is None ==> !s.contains(sep),
    decreases s.len(),
{
    if s.len() > 0 {
        if s[0] == sep {
            assert(s =~= Seq::<char>::empty().push(sep) + s.skip(1));
        } else {
            lemma_halves_make_the_text(s.skip(1), sep);
            match halves(s.skip(1), sep) {
                Some((left, right)) => {
                    assert(s =~= seq![s[0]] + s.skip(1));
                    assert(seq![s[0]] + (left.push(sep) + right) =~= (seq![s[0]] + left).push(sep)
                        + right);
                    assert forall|k: int| 0 <= k < (seq![s[0]] + left).len() implies (seq![s[0]]
                        + left)[k] != sep by {
                        if k > 0 {
                            assert(left.contains(left[k - 1]));
                        }
                    }
                },
                None => {
                    assert forall|k: int| 0 <= k < s.len() implies s[k] != sep by {
                        if k > 0 {
                            assert(s.skip(1).contains(s.skip(1)[k - 1]));
                        }
                    }
                },
            }
        }
    }
}

proof fn lemma_trim_start(s: Seq<char>)
    ensures
        trim_start(s).len() <= s.len(),
        trim_start(s) == s.skip(s.len() - trim_start(s).len()),
        trim_start(s).len() == 0 || !is_blank(trim_start(s)[0]),
        forall|i: int| 0 <= i < s.len() - trim_start(s).len() ==> is_blank(#[trigger] s[i]),
    decreases s.len(),
{
    if s.len() > 0 && is_blank(s[0]) {
        lemma_trim_start(s.skip(1));
        let n = s.len() - trim_start(s).len();
        assert(s.skip(1).skip(n - 1) =~= s.skip(n));
        assert forall|i: int| 0 <= i < n implies is_blank(#[trigger] s[i]) by {
            if i > 0 {
                assert(s.skip(1)[i - 1] == s[i]);
            }
        }
    } else {
        assert(s.skip(0) =~= s);
    }
}

proof fn lemma_trim_end(s: Seq<char>)
    ensures
        trim_end(s).len() <= s.len(),
        trim_end(s) == s.take(trim_end(s).len() as int),
        trim_end(s).len() == 0 || !is_blank(trim_end(s).last()),
        forall|i: int| trim_end(s).len() <= i < s.len() ==> is_blank(#[trigger] s[i]),
    decreases s.len(),
{
    if s.len() > 0 && is_blank(s.last()) {
        lemma_trim_end(s.drop_last());
        let n = trim_end(s).len() as int;
        assert(s.drop_last().take(n) =~= s.take(n));
        assert forall|i: int| n <= i < s.len() implies is_blank(#[trigger] s[i]) by {
            if i < s.len() - 1 {
                assert(s.drop_last()[i] == s[i]);
            }
        }
    } else {
        assert(s.take(s.len() as int) =~= s);
    }
}

/// Trimming takes off the blanks around a text and nothing else: of the ASCII
/// characters those are the space and the control characters from tab to
/// carriage return.
pub proof fn law_trim_takes_off_blanks(s: &str, r: String)
    requires
        call_ensures(trim, (s,), r),
    ensures
        exists|from: int|
            0 <= from && from + r@.len() <= s@.len() && r@ == #[trigger] s@.subrange(
                from,
                from + r@.len(),
            ) && (forall|i: int|
                (0 <= i < from || from + r@.len() <= i < s@.len()) ==> is_blank(#[trigger] s@[i])),
        r@.len() > 0 ==> !is_blank(r@[0]) && !is_blank(r@.last()),
        forall|c: char| c < '\u{80}' ==> (#[trigger] is_blank(c) <==> c == ' ' || '\t' <= c <= '\r'),
        r@ == trimmed(s@),
{
    lemma_trim_start(s@);
    let start = trim_start(s@);
    lemma_trim_end(start);
    let from = s@.len() - start.len();
    assert(r@ =~= s@.subrange(from, from + r@.len()));
    assert forall|i: int| (0 <= i < from || from + r@.len() <= i < s@.len()) implies is_blank(
        #[trigger] s@[i],
    ) by {
        if i >= from {
            assert(start[i - from] == s@[i]);
        }
    }
    if r@.len() > 0 {
        assert(r@[0] == start[0]);
    }
}

/// What trimming leaves of a text occurs in it.
pub proof fn lemma_trimmed_within(s: Seq<char>)
    ensures
        forall|i: int| 0 <= i < trimmed(s).len() ==> s.contains(#[trigger] trimmed(s)[i]),
{
    lemma_trim_start(s);
    let start = trim_start(s);
    lemma_trim_end(start);
    assert forall|i: int| 0 <= i < trimmed(s).len() implies s.contains(#[trigger] trimmed(s)[i]) by {
        assert(trimmed(s)[i] == start[i]);
        assert(start[i] == s[i + s.len() - start.len()]);
    }
}

/// A text that neither begins nor ends with a blank is left alone.
pub proof fn law_trim_leaves_text_alone(s: Seq<char>)
    requires
        s.len() == 0 || (!is_blank(s[0]) && !is_blank(s.last())),
    ensures
        trimmed(s) == s,
{
}

/// The decimal notation of a number reads back as the number, and begins with
/// a zero only for zero.
pub proof fn law_decimal_reads_back(n: u128, s: String)
    requires
        call_ensures(to_decimal, (n,), s),
    ensures
        s@.len() > 0,
        forall|i: int| 0 <= i < s@.len() ==> '0' <= #[trigger] s@[i] <= '9',
        numeral(s@) == n,
        s@[0] == '0' ==> n == 0,
{
    lemma_decimal_reads_back(n as nat);
    lemma_decimal_leads(n as nat);
    assert forall|i: int| 0 <= i < s@.len() implies '0' <= #[trigger] s@[i] <= '9' by {
        assert(is_digit(s@[i]));
    }
}

proof fn lemma_decimal_leads(n: nat)
    ensures
        decimal(n).len() > 0,
        decimal(n)[0] == '0' ==> n == 0,
    decreases n,
{
    if n >= 10 {
        lemma_decimal_leads(n / 10);
    }
}

/// An index is read exactly from a run of digits, after one `+` at most, that
/// denotes a number within range; and it is that number.
pub proof fn law_index_is_its_digits(s: &str, digits: Seq<char>, r: Option<usize>)
    requires
        call_ensures(parse_index, (s,), r),
    ensures
        r is Some ==> s@.len() > 0 && forall|k: int|
            1 <= k < s@.len() ==> '0' <= #[trigger] s@[k] <= '9',
        r is Some ==> '0' <= s@[0] <= '9' || s@[0] == '+' && s@.len() > 1,
        (s@ == digits || s@ == seq!['+'] + digits) && digits.len() > 0 && (forall|k: int|
            0 <= k < digits.len() ==> '0' <= #[trigger] digits[k] <= '9') ==> {
            &&& r is Some <==> numeral(digits) <= usize::MAX
            &&& r is Some ==> r->0 == numeral(digits)
        },
{
    let d = unsigned_digits(s@);
    if r is Some {
        assert forall|k: int| 1 <= k < s@.len() implies '0' <= #[trigger] s@[k] <= '9' by {
            if s@.len() > 1 && s@[0] == '+' {
                assert(is_digit(d[k - 1]));
            } else {
                assert(is_digit(d[k]));
            }
        }
        assert(is_digit(d[0]));
    }
    if (s@ == digits || s@ == seq!['+'] + digits) && digits.len() > 0 && (forall|k: int|
        0 <= k < digits.len() ==> '0' <= #[trigger] digits[k] <= '9') {
        if s@ == digits {
            assert('0' <= digits[0] <= '9');
            assert(d == digits);
        } else {
            assert(d =~= digits);
        }
        assert forall|i: int| 0 <= i < d.len() implies is_digit(#[trigger] d[i]) by {
            assert('0' <= digits[i] <= '9');
        }
    }
}

/// A numeral is read digit by digit, each worth ten of the next.
pub proof fn law_digits_weigh_ten(digits: Seq<char>, last: nat)
    requires
        last < 10,
    ensures
        numeral(digits.push((48 + last) as char)) == 10 * numeral(digits) + last,
        numeral(Seq::empty()) == 0,
{
    assert(digits.push((48 + last) as char).drop_last() =~= digits);
}

} // verus!
