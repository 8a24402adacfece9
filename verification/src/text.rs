//! Text helpers shared by the models and the storage engine.
//!
//! Every string is modelled by its sequence of characters. The few facts that
//! only the standard library can decide (which characters are white space)
//! are named here and believed of the standard library; everything else is
//! proved.
use vstd::prelude::*;

verus! {

broadcast use vstd::string::group_string_axioms;

/// Whether `c` is white space. Names the answer of the standard library's
/// `char::is_whitespace`, which goes by the Unicode property `White_Space`.
pub uninterp spec fn is_whitespace(c: char) -> bool;

/// A text is blank when it holds nothing but white space (the empty text is blank).
pub open spec fn is_blank(s: Seq<char>) -> bool {
    forall|i: int| 0 <= i < s.len() ==> is_whitespace(#[trigger] s[i])
}

/// `s` without its leading white space.
pub open spec fn trim_start(s: Seq<char>) -> Seq<char>
    decreases s.len(),
{
    if s.len() > 0 && is_whitespace(s.first()) {
        trim_start(s.drop_first())
    } else {
        s
    }
}

/// `s` without its trailing white space.
pub open spec fn trim_end(s: Seq<char>) -> Seq<char>
    decreases s.len(),
{
    if s.len() > 0 && is_whitespace(s.last()) {
        trim_end(s.drop_last())
    } else {
        s
    }
}

/// `s` without leading and trailing white space.
pub open spec fn trimmed(s: Seq<char>) -> Seq<char> {
    trim_end(trim_start(s))
}

/// The lower-case form of an ASCII capital; every other character is itself.
pub open spec fn ascii_lower(c: char) -> char {
    if 'A' <= c && c <= 'Z' {
        ((c as u8) + 32) as char
    } else {
        c
    }
}

/// Two texts are equal up to the case of their ASCII letters.
pub open spec fn eq_ignore_ascii_case(a: Seq<char>, b: Seq<char>) -> bool {
    &&& a.len() == b.len()
    &&& forall|i: int| 0 <= i < a.len() ==> ascii_lower(#[trigger] a[i]) == ascii_lower(b[i])
}

/// Calls `char::is_whitespace` of the standard library. Believed: the answer
/// is the one that [`is_whitespace`] names.
#[verifier::external_body]
fn char_is_whitespace(c: char) -> (b: bool)
    ensures
        b == is_whitespace(c),
{
    c.is_whitespace()
}

/// Tests whether a text holds nothing but white space.
pub fn blank(s: &str) -> (b: bool)
    ensures
        b == is_blank(s@),
{
    let mut all: bool = true;
    for c in it: s.chars()
        invariant
            it.seq() == s@,
            all == (forall|j: int| 0 <= j < it.index() ==> is_whitespace(#[trigger] s@[j])),
    {
        if !char_is_whitespace(c) {
            all = false;
        }
    }
    all
}

/// The characters of a text, in order.
pub fn chars_of(s: &str) -> (v: Vec<char>)
    ensures
        v@ == s@,
{
    let mut v: Vec<char> = Vec::new();
    for c in it: s.chars()
        invariant
            v@ == it.seq().take(it.index() as int),
            it.seq() == s@,
    {
        v.push(c);
    }
    v
}

/// Stripping leading white space skips every white-space character in front.
proof fn lemma_trim_start_skips(s: Seq<char>, k: int)
    requires
        0 <= k <= s.len(),
        forall|j: int| 0 <= j < k ==> is_whitespace(#[trigger] s[j]),
    ensures
        trim_start(s) == trim_start(s.skip(k)),
    decreases k,
{
    if k == 0 {
        assert(s.skip(0) =~= s);
    } else {
        assert(s.first() == s[0]);
        assert(s.drop_first().skip(k - 1) =~= s.skip(k));
        assert forall|j: int| 0 <= j < k - 1 implies is_whitespace(#[trigger] s.drop_first()[j]) by {
            assert(s.drop_first()[j] == s[j + 1]);
        }
        lemma_trim_start_skips(s.drop_first(), k - 1);
    }
}

/// Stripping trailing white space drops every white-space character at the end.
proof fn lemma_trim_end_drops(s: Seq<char>, k: int)
    requires
        0 <= k <= s.len(),
        forall|j: int| k <= j < s.len() ==> is_whitespace(#[trigger] s[j]),
    ensures
        trim_end(s) == trim_end(s.take(k)),
    decreases s.len() - k,
{
    if k == s.len() {
        assert(s.take(k) =~= s);
    } else {
        assert(s.last() == s[s.len() - 1]);
        assert(s.drop_last().take(k) =~= s.take(k));
        lemma_trim_end_drops(s.drop_last(), k);
    }
}

/// The text without its leading and trailing white space.
pub fn trim(s: &str) -> (r: &str)
    ensures
        r@ == trimmed(s@),
{
    let chars = chars_of(s);
    let n = chars.len();
    let mut start: usize = 0;
    loop
        invariant
            chars@ == s@,
            n == chars.len(),
            start <= n,
            forall|j: int| 0 <= j < start ==> is_whitespace(#[trigger] s@[j]),
        ensures
            start == n || !is_whitespace(s@[start as int]),
        decreases n - start,
    {
        if start == n || !char_is_whitespace(chars[start]) {
            break;
        }
        start += 1;
    }
    let ghost rest = s@.skip(start as int);
    proof {
        lemma_trim_start_skips(s@, start as int);
        if start < n {
            assert(rest.first() == s@[start as int]);
        }
        assert(trim_start(s@) == rest);
    }
    let mut end: usize = n;
    loop
        invariant
            chars@ == s@,
            n == chars.len(),
            start <= end <= n,
            forall|j: int| end <= j < n ==> is_whitespace(#[trigger] s@[j]),
        ensures
            end == start || !is_whitespace(s@[end - 1]),
        decreases end - start,
    {
        if end == start || !char_is_whitespace(chars[end - 1]) {
            break;
        }
        end -= 1;
    }
    proof {
        let kept = rest.take(end - start);
        assert forall|j: int| end - start <= j < rest.len() implies is_whitespace(
            #[trigger] rest[j],
        ) by {
            assert(rest[j] == s@[start + j]);
        }
        lemma_trim_end_drops(rest, end - start);
        if end > start {
            assert(kept.last() == s@[end - 1]);
        }
        assert(trim_end(kept) == kept);
        assert(kept =~= s@.subrange(start as int, end as int));
    }
    s.substring_char(start, end)
}

/// Lower-cases one character if it is an ASCII capital.
pub fn to_ascii_lower(c: char) -> (r: char)
    ensures
        r == ascii_lower(c),
{
    if 'A' <= c && c <= 'Z' {
        ((c as u8) + 32) as char
    } else {
        c
    }
}

/// Tests whether two texts are equal up to the case of their ASCII letters.
pub fn same_ignoring_ascii_case(a: &str, b: &str) -> (r: bool)
    ensures
        r == eq_ignore_ascii_case(a@, b@),
{
    let x = chars_of(a);
    let y = chars_of(b);
    if x.len() != y.len() {
        return false;
    }
    let mut i: usize = 0;
    while i < x.len()
        invariant
            x@ == a@,
            y@ == b@,
            x.len() == y.len(),
            i <= x.len(),
            forall|j: int| 0 <= j < i ==> ascii_lower(#[trigger] a@[j]) == ascii_lower(b@[j]),
        decreases x.len() - i,
    {
        if to_ascii_lower(x[i]) != to_ascii_lower(y[i]) {
            return false;
        }
        i += 1;
    }
    true
}

/// Tests whether two texts are the same.
pub fn same_text(a: &str, b: &str) -> (r: bool)
    ensures
        r == (a@ == b@),
{
    let x = String::from_str(a);
    let y = String::from_str(b);
    x == y
}

/// The character that writes the digit `d` (below ten).
pub open spec fn digit_char(d: nat) -> char {
    if d == 0 {
        '0'
    } else if d == 1 {
        '1'
    } else if d == 2 {
        '2'
    } else if d == 3 {
        '3'
    } else if d == 4 {
        '4'
    } else if d == 5 {
        '5'
    } else if d == 6 {
        '6'
    } else if d == 7 {
        '7'
    } else if d == 8 {
        '8'
    } else {
        '9'
    }
}

/// The decimal numeral of `n`, without leading zeros.
pub open spec fn decimal(n: nat) -> Seq<char>
    decreases n,
{
    if n < 10 {
        seq![digit_char(n)]
    } else {
        decimal(n / 10).push(digit_char(n % 10))
    }
}

/// The one-character text of a digit.
fn digit_text(d: usize) -> (r: &'static str)
    requires
        d < 10,
    ensures
        r@ == seq![digit_char(d as nat)],
{
    proof {
        reveal_strlit("0");
        reveal_strlit("1");
        reveal_strlit("2");
        reveal_strlit("3");
        reveal_strlit("4");
        reveal_strlit("5");
        reveal_strlit("6");
        reveal_strlit("7");
        reveal_strlit("8");
        reveal_strlit("9");
    }
    let r = if d == 0 {
        "0"
    } else if d == 1 {
        "1"
    } else if d == 2 {
        "2"
    } else if d == 3 {
        "3"
    } else if d == 4 {
        "4"
    } else if d == 5 {
        "5"
    } else if d == 6 {
        "6"
    } else if d == 7 {
        "7"
    } else if d == 8 {
        "8"
    } else {
        "9"
    };
    assert(r@ =~= seq![digit_char(d as nat)]);
    r
}

/// Writes `n` as a decimal numeral.
pub fn decimal_string(n: usize) -> (r: String)
    ensures
        r@ == decimal(n as nat),
    decreases n,
{
    if n < 10 {
        String::from_str(digit_text(n))
    } else {
        let mut r = decimal_string(n / 10);
        r.append(digit_text(n % 10));
        assert(r@ =~= decimal(n as nat));
        r
    }
}

/// The texts of a sequence of strings.
pub open spec fn texts(v: Seq<String>) -> Seq<Seq<char>> {
    Seq::new(v.len(), |i: int| v[i]@)
}

/// Copies a list of strings.
pub fn clone_texts(v: &Vec<String>) -> (r: Vec<String>)
    ensures
        r@ == v@,
{
    let mut r: Vec<String> = Vec::new();
    let mut i: usize = 0;
    while i < v.len()
        invariant
            i <= v.len(),
            r@ == v@.take(i as int),
        decreases v.len() - i,
    {
        r.push(v[i].clone());
        assert(r@ =~= v@.take(i + 1));
        i += 1;
    }
    assert(r@ =~= v@);
    r
}

/// The text `a` followed by the text `b`.
pub fn concat(a: &str, b: &str) -> (r: String)
    ensures
        r@ == a@ + b@,
{
    let mut r = String::from_str(a);
    r.append(b);
    r
}

/// The pieces of `s` that the separator `sep` parts, in order. There is
/// always at least one piece; two separators in a row part an empty piece.
pub open spec fn split(s: Seq<char>, sep: char) -> Seq<Seq<char>>
    decreases s.len(),
{
    if s.len() == 0 {
        seq![Seq::empty()]
    } else {
        let before = split(s.drop_last(), sep);
        if s.last() == sep {
            before.push(Seq::empty())
        } else {
            before.drop_last().push(before.last().push(s.last()))
        }
    }
}

/// The pieces without their surrounding white space, those left out of which
/// nothing remains.
pub open spec fn nonempty_trimmed(pieces: Seq<Seq<char>>) -> Seq<Seq<char>>
    decreases pieces.len(),
{
    if pieces.len() == 0 {
        Seq::empty()
    } else if trimmed(pieces.last()).len() == 0 {
        nonempty_trimmed(pieces.drop_last())
    } else {
        nonempty_trimmed(pieces.drop_last()).push(trimmed(pieces.last()))
    }
}

/// Appends the piece without its surrounding white space, unless nothing
/// remains of it.
fn push_trimmed(out: &mut Vec<String>, piece: &str, Ghost(done): Ghost<Seq<Seq<char>>>)
    requires
        texts(old(out)@) == nonempty_trimmed(done),
    ensures
        texts(final(out)@) == nonempty_trimmed(done.push(piece@)),
{
    let entry = trim(piece);
    assert(done.push(piece@).drop_last() =~= done);
    if !entry.is_empty() {
        out.push(String::from_str(entry));
        assert(texts(out@) =~= nonempty_trimmed(done).push(trimmed(piece@)));
    }
}

/// Parts a text at every `sep`, strips each piece of its surrounding white
/// space, and keeps the pieces of which something remains.
pub fn trimmed_pieces(text: &str, sep: char) -> (r: Vec<String>)
    ensures
        texts(r@) == nonempty_trimmed(split(text@, sep)),
{
    let chars = chars_of(text);
    let mut out: Vec<String> = Vec::new();
    let mut start: usize = 0;
    let mut i: usize = 0;
    let ghost mut done: Seq<Seq<char>> = Seq::empty();
    assert(text@.take(0) =~= Seq::<char>::empty());
    assert(split(text@.take(0), sep) =~= done.push(text@.subrange(0, 0)));
    assert(texts(out@) =~= nonempty_trimmed(done));
    while i < chars.len()
        invariant
            chars@ == text@,
            start <= i <= chars.len(),
            split(text@.take(i as int), sep) == done.push(text@.subrange(start as int, i as int)),
            texts(out@) == nonempty_trimmed(done),
        decreases chars.len() - i,
    {
        assert(text@.take(i + 1).drop_last() =~= text@.take(i as int));
        assert(text@.take(i + 1).last() == text@[i as int]);
        if chars[i] == sep {
            push_trimmed(&mut out, text.substring_char(start, i), Ghost(done));
            proof {
                done = done.push(text@.subrange(start as int, i as int));
                assert(text@.subrange(i + 1, i + 1) =~= Seq::<char>::empty());
            }
            start = i + 1;
        } else {
            proof {
                let piece = text@.subrange(start as int, i as int);
                assert(done.push(piece).drop_last() =~= done);
                assert(piece.push(text@[i as int]) =~= text@.subrange(start as int, i + 1));
            }
        }
        i += 1;
    }
    assert(text@.take(i as int) =~= text@);
    push_trimmed(&mut out, text.substring_char(start, i), Ghost(done));
    out
}

} // verus!
