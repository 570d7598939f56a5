//! Text as sequences of characters: the model every string contract in this
//! crate is stated over, and the verified routines that work on it.

use vstd::prelude::*;
use vstd::string::*;

verus! {

/// The mathematical value of a string: its characters in order.
pub type Text = Seq<char>;

/// The values of a list of items, each taken by its view.
pub open spec fn views<T: View>(v: Seq<T>) -> Seq<T::V> {
    Seq::new(v.len(), |i: int| v[i]@)
}

/// The values of a list of strings.
pub open spec fn texts(v: Seq<String>) -> Seq<Text> {
    views(v)
}

/// The value of an optional string.
pub open spec fn opt_text(o: Option<String>) -> Option<Text> {
    match o {
        Some(s) => Some(s@),
        None => None,
    }
}

/// The text of an optional string, or the empty text.
pub open spec fn text_or_empty(o: Option<Text>) -> Text {
    match o {
        Some(s) => s,
        None => Seq::empty(),
    }
}

/// Whether two strings hold the same characters.
pub fn text_eq(a: &str, b: &str) -> (r: bool)
    ensures
        r == (a@ == b@),
{
    a.to_owned() == b.to_owned()
}

/// Whether two optional strings are both absent or hold the same characters.
pub fn opt_text_eq(a: &Option<String>, b: &Option<String>) -> (r: bool)
    ensures
        r == (opt_text(*a) == opt_text(*b)),
{
    match (a, b) {
        (Some(x), Some(y)) => *x == *y,
        (None, None) => true,
        _ => false,
    }
}

/// A fresh copy of an optional string.
pub fn clone_opt_text(a: &Option<String>) -> (r: Option<String>)
    ensures
        r == *a,
{
    match a {
        Some(x) => Some(x.clone()),
        None => None,
    }
}

/// A fresh copy of a list of strings.
pub fn clone_texts(v: &Vec<String>) -> (r: Vec<String>)
    ensures
        r@ == v@,
{
    let mut out: Vec<String> = Vec::new();
    let mut i: usize = 0;
    while i < v.len()
        invariant
            i <= v.len(),
            out@ == v@.take(i as int),
        decreases v.len() - i,
    {
        out.push(v[i].clone());
        i += 1;
    }
    out
}

/// `a` followed by `b`.
pub fn join2(a: &str, b: &str) -> (r: String)
    ensures
        r@ == a@ + b@,
{
    a.to_owned().concat(b)
}

/// `a`, `b` and `c` in a row.
pub fn join3(a: &str, b: &str, c: &str) -> (r: String)
    ensures
        r@ == a@ + b@ + c@,
{
    a.to_owned().concat(b).concat(c)
}

/// The characters of `s`, in order.
pub fn to_chars(s: &str) -> (out: Vec<char>)
    ensures
        out@ == s@,
{
    let mut out: Vec<char> = Vec::new();
    for c in it: s.chars()
        invariant
            out@ == it.seq().take(it.index() as int),
            it.seq() == s@,
    {
        out.push(c);
    }
    out
}

/// The part of `s` from character `from` up to, not including, character `to`.
pub fn slice(s: &str, from: usize, to: usize) -> (r: String)
    requires
        from <= to <= s@.len(),
    ensures
        r@ == s@.subrange(from as int, to as int),
{
    s.substring_char(from, to).to_owned()
}

/// Lexicographic order on texts, characters compared by code point. This is
/// the order `str` has in Rust.
pub open spec fn text_lt(a: Text, b: Text) -> bool
    decreases a.len(),
{
    if b.len() == 0 {
        false
    } else if a.len() == 0 {
        true
    } else if a[0] != b[0] {
        (a[0] as int) < (b[0] as int)
    } else {
        text_lt(a.drop_first(), b.drop_first())
    }
}

/// `text_lt` read from position `i` on, given that the texts agree before it.
proof fn lemma_text_lt_from(a: Text, b: Text, i: int)
    requires
        0 <= i <= a.len(),
        i <= b.len(),
        a.take(i) == b.take(i),
    ensures
        text_lt(a, b) == text_lt(a.skip(i), b.skip(i)),
    decreases i,
{
    if i == 0 {
        assert(a.skip(0) == a);
        assert(b.skip(0) == b);
    } else {
        assert(a[0] == a.take(i)[0]);
        assert(b[0] == b.take(i)[0]);
        let a1 = a.drop_first();
        let b1 = b.drop_first();
        assert(a1.take(i - 1) == b1.take(i - 1)) by {
            assert forall|k: int| 0 <= k < i - 1 implies #[trigger] a1.take(i - 1)[k] == b1.take(
                i - 1,
            )[k] by {
                assert(a1.take(i - 1)[k] == a[k + 1]);
                assert(b1.take(i - 1)[k] == b[k + 1]);
                assert(a.take(i)[k + 1] == a[k + 1]);
                assert(b.take(i)[k + 1] == b[k + 1]);
            }
        }
        lemma_text_lt_from(a1, b1, i - 1);
        assert(a1.skip(i - 1) == a.skip(i));
        assert(b1.skip(i - 1) == b.skip(i));
    }
}

/// Whether `a` comes strictly before `b` in lexicographic order.
pub fn text_precedes(a: &str, b: &str) -> (r: bool)
    ensures
        r == text_lt(a@, b@),
{
    let x = to_chars(a);
    let y = to_chars(b);
    let mut i: usize = 0;
    while i < x.len() && i < y.len()
        invariant
            i <= x.len(),
            i <= y.len(),
            x@ == a@,
            y@ == b@,
            a@.take(i as int) == b@.take(i as int),
        decreases x.len() - i,
    {
        if x[i] != y[i] {
            proof {
                lemma_text_lt_from(a@, b@, i as int);
            }
            return x[i] < y[i];
        }
        assert(a@.take(i + 1) == a@.take(i as int).push(a@[i as int]));
        assert(b@.take(i + 1) == b@.take(i as int).push(b@[i as int]));
        i += 1;
    }
    proof {
        lemma_text_lt_from(a@, b@, i as int);
    }
    i < y.len()
}

/// No text comes before itself.
pub proof fn lemma_text_lt_irreflexive(a: Text)
    ensures
        !text_lt(a, a),
    decreases a.len(),
{
    if a.len() > 0 {
        lemma_text_lt_irreflexive(a.drop_first());
    }
}

/// Of two different texts, one comes before the other.
pub proof fn lemma_text_lt_total(a: Text, b: Text)
    ensures
        a == b || text_lt(a, b) || text_lt(b, a),
        !(text_lt(a, b) && text_lt(b, a)),
    decreases a.len(),
{
    if a.len() == 0 || b.len() == 0 {
        if a.len() == 0 && b.len() == 0 {
            assert(a =~= b);
        }
    } else if a[0] == b[0] {
        lemma_text_lt_total(a.drop_first(), b.drop_first());
        if a.drop_first() == b.drop_first() {
            assert(a =~= seq![a[0]] + a.drop_first());
            assert(b =~= seq![b[0]] + b.drop_first());
        }
    } else {
    }
}

/// The order on texts is transitive.
pub proof fn lemma_text_lt_transitive(a: Text, b: Text, c: Text)
    requires
        text_lt(a, b),
        text_lt(b, c),
    ensures
        text_lt(a, c),
    decreases a.len(),
{
    if a.len() > 0 {
        if a[0] == b[0] && b[0] == c[0] {
            lemma_text_lt_transitive(a.drop_first(), b.drop_first(), c.drop_first());
        }
    }
}

/// Whether `c` is Unicode white space, as `char::is_whitespace` reports it.
pub uninterp spec fn char_is_whitespace(c: char) -> bool;

/// `char::is_whitespace` of std: whether `c` has the Unicode property
/// White_Space. The set of such characters is not spelled out here; the
/// result is only given its name.
#[verifier::external_body]
pub(crate) fn is_whitespace(c: char) -> (r: bool)
    ensures
        r == char_is_whitespace(c),
{
    c.is_whitespace()
}

/// The number of white-space characters at the start of `s`.
pub open spec fn leading_whitespace(s: Text) -> int
    decreases s.len(),
{
    if s.len() > 0 && char_is_whitespace(s[0]) {
        1 + leading_whitespace(s.drop_first())
    } else {
        0
    }
}

/// The number of white-space characters at the end of `s`.
pub open spec fn trailing_whitespace(s: Text) -> int
    decreases s.len(),
{
    if s.len() > 0 && char_is_whitespace(s.last()) {
        1 + trailing_whitespace(s.drop_last())
    } else {
        0
    }
}

/// `s` without the white space at its two ends.
pub open spec fn trimmed(s: Text) -> Text {
    let from = leading_whitespace(s);
    if from >= s.len() {
        Seq::empty()
    } else {
        s.subrange(from, s.len() - trailing_whitespace(s))
    }
}

/// The leading white space ends at the first other character.
pub proof fn lemma_leading_whitespace(s: Text, n: int)
    requires
        0 <= n <= s.len(),
        forall|k: int| 0 <= k < n ==> char_is_whitespace(#[trigger] s[k]),
        n < s.len() ==> !char_is_whitespace(s[n]),
    ensures
        leading_whitespace(s) == n,
    decreases n,
{
    if n > 0 {
        let t = s.drop_first();
        assert forall|k: int| 0 <= k < n - 1 implies char_is_whitespace(#[trigger] t[k]) by {
            assert(t[k] == s[k + 1]);
        }
        if n < s.len() {
            assert(t[n - 1] == s[n]);
        }
        lemma_leading_whitespace(t, n - 1);
    }
}

/// The trailing white space starts after the last other character.
pub proof fn lemma_trailing_whitespace(s: Text, n: int)
    requires
        0 <= n <= s.len(),
        forall|k: int| s.len() - n <= k < s.len() ==> char_is_whitespace(#[trigger] s[k]),
        n < s.len() ==> !char_is_whitespace(s[s.len() - n - 1]),
    ensures
        trailing_whitespace(s) == n,
    decreases n,
{
    if n > 0 {
        let t = s.drop_last();
        assert forall|k: int| t.len() - (n - 1) <= k < t.len() implies char_is_whitespace(
            #[trigger] t[k],
        ) by {
            assert(t[k] == s[k]);
        }
        if n < s.len() {
            assert(t[t.len() - (n - 1) - 1] == s[s.len() - n - 1]);
        }
        lemma_trailing_whitespace(t, n - 1);
    }
}

/// `s` without the white space at its two ends, as `str::trim` gives it.
pub fn trim(s: &str) -> (r: String)
    ensures
        r@ == trimmed(s@),
{
    let chars = to_chars(s);
    let n = chars.len();
    let mut from: usize = 0;
    while from < n && is_whitespace(chars[from])
        invariant
            from <= n,
            n == chars.len(),
            forall|k: int| 0 <= k < from ==> char_is_whitespace(#[trigger] chars@[k]),
        decreases n - from,
    {
        from += 1;
    }
    proof {
        lemma_leading_whitespace(chars@, from as int);
    }
    if from >= n {
        return String::new();
    }
    let mut to: usize = n;
    while to > from && is_whitespace(chars[to - 1])
        invariant
            from <= to <= n,
            n == chars.len(),
            from < n,
            !char_is_whitespace(chars@[from as int]),
            forall|k: int| to <= k < n ==> char_is_whitespace(#[trigger] chars@[k]),
        decreases to,
    {
        to -= 1;
    }
    proof {
        lemma_trailing_whitespace(chars@, n - to);
    }
    slice(s, from, to)
}

/// The position of the first `x` in `s`, or the length of `s` if there is none.
pub open spec fn index_of<A>(s: Seq<A>, x: A) -> nat
    decreases s.len(),
{
    if s.len() == 0 || s[0] == x {
        0
    } else {
        1 + index_of(s.drop_first(), x)
    }
}

/// `index_of` is the first position that holds `x`.
pub proof fn lemma_index_of<A>(s: Seq<A>, x: A, n: int)
    requires
        0 <= n <= s.len(),
        forall|k: int| 0 <= k < n ==> #[trigger] s[k] != x,
        n < s.len() ==> s[n] == x,
    ensures
        index_of(s, x) == n,
    decreases n,
{
    if n > 0 {
        let t = s.drop_first();
        assert forall|k: int| 0 <= k < n - 1 implies #[trigger] t[k] != x by {
            assert(t[k] == s[k + 1]);
        }
        if n < s.len() {
            assert(t[n - 1] == s[n]);
        }
        lemma_index_of(t, x, n - 1);
    }
}

/// Before the position that `index_of` gives there is no `x`, and at it there
/// is one, unless it is the length.
pub proof fn lemma_index_of_first<A>(s: Seq<A>, x: A)
    ensures
        index_of(s, x) <= s.len(),
        forall|k: int| 0 <= k < index_of(s, x) ==> #[trigger] s[k] != x,
        index_of(s, x) < s.len() ==> s[index_of(s, x) as int] == x,
    decreases s.len(),
{
    if s.len() > 0 && s[0] != x {
        let t = s.drop_first();
        lemma_index_of_first(t, x);
        assert forall|k: int| 0 <= k < index_of(s, x) implies #[trigger] s[k] != x by {
            if k > 0 {
                assert(s[k] == t[k - 1]);
            }
        }
        if index_of(s, x) < s.len() {
            assert(s[index_of(s, x) as int] == t[index_of(t, x) as int]);
        }
    }
}

/// The pieces of `s` between occurrences of `sep`, as `str::split` gives
/// them: always at least one piece, and empty pieces are kept.
pub open spec fn split_on(s: Text, sep: char) -> Seq<Text>
    decreases s.len(),
{
    let i = index_of(s, sep) as int;
    if i >= s.len() {
        seq![s]
    } else {
        seq![s.take(i)] + split_on(s.skip(i + 1), sep)
    }
}

/// The pieces of `s` between occurrences of `sep`.
pub fn split(s: &str, sep: char) -> (out: Vec<String>)
    ensures
        texts(out@) == split_on(s@, sep),
{
    let chars = to_chars(s);
    let n = chars.len();
    let mut out: Vec<String> = Vec::new();
    let mut start: usize = 0;
    let mut i: usize = 0;
    assert(s@.skip(0) == s@);
    assert(texts(out@) + split_on(s@, sep) == split_on(s@, sep));
    while i < n
        invariant
            start <= i <= n,
            n == chars.len(),
            chars@ == s@,
            forall|k: int| start <= k < i ==> #[trigger] chars@[k] != sep,
            split_on(s@, sep) == texts(out@) + split_on(s@.skip(start as int), sep),
        decreases n - i,
    {
        if chars[i] == sep {
            let piece = slice(s, start, i);
            proof {
                let rest = s@.skip(start as int);
                assert forall|k: int| 0 <= k < i - start implies #[trigger] rest[k] != sep by {
                    assert(rest[k] == chars@[start + k]);
                }
                lemma_index_of(rest, sep, i - start);
                assert(rest.take(i - start) == s@.subrange(start as int, i as int));
                assert(rest.skip(i - start + 1) == s@.skip(i + 1));
                assert(texts(out@.push(piece)) == texts(out@) + seq![piece@]);
            }
            out.push(piece);
            start = i + 1;
        }
        i += 1;
    }
    let piece = slice(s, start, n);
    proof {
        let rest = s@.skip(start as int);
        assert forall|k: int| 0 <= k < n - start implies #[trigger] rest[k] != sep by {
            assert(rest[k] == chars@[start + k]);
        }
        lemma_index_of(rest, sep, n - start);
        assert(rest == s@.subrange(start as int, n as int));
        assert(texts(out@.push(piece)) == texts(out@) + seq![piece@]);
    }
    out.push(piece);
    out
}

/// The character that writes the digit `d`.
pub open spec fn digit_char(d: int) -> char {
    if d == 0 {
        '0'
    } else if d == 1 {
        '1'
    } else if d == 2 {
        '2'
    } else if d == 3 {
        '3'
    } else if d == 4 {
        '4'
    } else if d == 5 {
        '5'
    } else if d == 6 {
        '6'
    } else if d == 7 {
        '7'
    } else if d == 8 {
        '8'
    } else {
        '9'
    }
}

/// The decimal digits of `n`, most significant first, without leading zeros.
pub open spec fn decimal_nat(n: nat) -> Text
    decreases n,
{
    if n < 10 {
        seq![digit_char(n as int)]
    } else {
        decimal_nat(n / 10).push(digit_char((n % 10) as int))
    }
}

/// `n` written in decimal, with a minus sign if it is negative.
pub open spec fn decimal(n: int) -> Text {
    if n < 0 {
        seq!['-'] + decimal_nat((-n) as nat)
    } else {
        decimal_nat(n as nat)
    }
}

fn digit_str(d: u64) -> (r: &'static str)
    requires
        d < 10,
    ensures
        r@ == seq![digit_char(d as int)],
{
    proof {
        reveal_strlit("0");
        reveal_strlit("1");
        reveal_strlit("2");
        reveal_strlit("3");
        reveal_strlit("4");
        reveal_strlit("5");
        reveal_strlit("6");
        reveal_strlit("7");
        reveal_strlit("8");
        reveal_strlit("9");
    }
    let r = if d == 0 {
        "0"
    } else if d == 1 {
        "1"
    } else if d == 2 {
        "2"
    } else if d == 3 {
        "3"
    } else if d == 4 {
        "4"
    } else if d == 5 {
        "5"
    } else if d == 6 {
        "6"
    } else if d == 7 {
        "7"
    } else if d == 8 {
        "8"
    } else {
        "9"
    };
    assert(r@ =~= seq![digit_char(d as int)]);
    r
}

/// `n` written in decimal.
pub fn u64_to_text(n: u64) -> (r: String)
    ensures
        r@ == decimal(n as int),
    decreases n,
{
    if n < 10 {
        digit_str(n).to_owned()
    } else {
        let head = u64_to_text(n / 10);
        let r = head.concat(digit_str(n % 10));
        assert(r@ == decimal_nat((n / 10) as nat).push(digit_char((n % 10) as int)));
        r
    }
}

/// `n` written in decimal, with a minus sign if it is negative.
pub fn i64_to_text(n: i64) -> (r: String)
    ensures
        r@ == decimal(n as int),
{
    if n >= 0 {
        u64_to_text(n as u64)
    } else {
        proof {
            reveal_strlit("-");
        }
        let magnitude: u64 = if n == i64::MIN {
            9223372036854775808u64
        } else {
            (-n) as u64
        };
        let digits = u64_to_text(magnitude);
        let r = join2("-", digits.as_str());
        assert("-"@ =~= seq!['-']);
        r
    }
}

/// Whether one of `items` holds the characters of `x`.
pub fn contains_text(items: &Vec<String>, x: &str) -> (r: bool)
    ensures
        r == texts(items@).contains(x@),
{
    let mut i: usize = 0;
    while i < items.len()
        invariant
            i <= items.len(),
            forall|k: int| 0 <= k < i ==> #[trigger] texts(items@)[k] != x@,
        decreases items.len() - i,
    {
        if text_eq(items[i].as_str(), x) {
            assert(texts(items@)[i as int] == x@);
            return true;
        }
        i += 1;
    }
    false
}

/// `parts` in a row with `sep` between each two.
pub open spec fn joined(parts: Seq<Text>, sep: Text) -> Text
    decreases parts.len(),
{
    if parts.len() == 0 {
        Seq::empty()
    } else if parts.len() == 1 {
        parts[0]
    } else {
        joined(parts.drop_last(), sep) + sep + parts.last()
    }
}

/// `parts` in a row with `sep` between each two.
pub fn join_all(parts: &Vec<String>, sep: &str) -> (r: String)
    ensures
        r@ == joined(texts(parts@), sep@),
{
    let mut out = String::new();
    let mut i: usize = 0;
    assert(texts(parts@).take(0) =~= Seq::<Text>::empty());
    while i < parts.len()
        invariant
            i <= parts.len(),
            out@ == joined(texts(parts@).take(i as int), sep@),
        decreases parts.len() - i,
    {
        proof {
            let now = texts(parts@).take(i + 1);
            assert(now.drop_last() == texts(parts@).take(i as int));
            assert(now.last() == parts@[i as int]@);
        }
        if i > 0 {
            out = out.concat(sep);
        }
        out = out.concat(parts[i].as_str());
        proof {
            if i == 0 {
                assert(out@ =~= parts@[0]@);
            }
        }
        i += 1;
    }
    assert(texts(parts@).take(parts.len() as int) == texts(parts@));
    out
}

/// `s` in lower case, as `str::to_lowercase` gives it.
pub uninterp spec fn lowercase_of(s: Text) -> Text;

/// `str::to_lowercase` of std: the lower-case form of `s` by the rules of
/// Unicode. The rules are not spelled out here; the result is only given
/// its name.
#[verifier::external_body]
pub(crate) fn to_lowercase(s: &str) -> (r: String)
    ensures
        r@ == lowercase_of(s@),
{
    s.to_lowercase()
}

/// Whether `s` begins with `prefix`.
pub open spec fn has_prefix(s: Text, prefix: Text) -> bool {
    prefix.len() <= s.len() && s.take(prefix.len() as int) == prefix
}

/// Whether `needle` stands somewhere in `s`.
pub open spec fn has_part(s: Text, needle: Text) -> bool {
    exists|i: int| 0 <= i <= s.len() && #[trigger] has_prefix(s.skip(i), needle)
}

fn chars_start_with(s: &Vec<char>, from: usize, prefix: &Vec<char>) -> (r: bool)
    requires
        from <= s.len(),
    ensures
        r == has_prefix(s@.skip(from as int), prefix@),
{
    if prefix.len() > s.len() - from {
        return false;
    }
    let mut k: usize = 0;
    while k < prefix.len()
        invariant
            k <= prefix.len(),
            from <= s.len(),
            prefix.len() <= s.len() - from,
            forall|j: int| 0 <= j < k ==> s@[from + j] == #[trigger] prefix@[j],
        decreases prefix.len() - k,
    {
        if s[from + k] != prefix[k] {
            assert(s@.skip(from as int).take(prefix.len() as int)[k as int] != prefix@[k as int]);
            return false;
        }
        k += 1;
    }
    assert(s@.skip(from as int).take(prefix.len() as int) =~= prefix@);
    true
}

/// Whether `s` begins with `prefix`.
pub fn starts_with(s: &str, prefix: &str) -> (r: bool)
    ensures
        r == has_prefix(s@, prefix@),
{
    let a = to_chars(s);
    let b = to_chars(prefix);
    assert(a@.skip(0) == a@);
    chars_start_with(&a, 0, &b)
}

/// Whether `needle` stands somewhere in `s`.
pub fn contains_part(s: &str, needle: &str) -> (r: bool)
    ensures
        r == has_part(s@, needle@),
{
    let a = to_chars(s);
    let b = to_chars(needle);
    let mut i: usize = 0;
    while i < a.len()
        invariant
            i <= a.len(),
            a@ == s@,
            b@ == needle@,
            forall|j: int| 0 <= j < i ==> !#[trigger] has_prefix(s@.skip(j), needle@),
        decreases a.len() - i,
    {
        if chars_start_with(&a, i, &b) {
            return true;
        }
        i += 1;
    }
    chars_start_with(&a, i, &b)
}

/// The words of `s`: its runs of characters that are not white space, as
/// `str::split_whitespace` gives them.
pub open spec fn fields_of(s: Text) -> Seq<Text>
    decreases s.len(),
{
    if s.len() == 0 {
        Seq::empty()
    } else {
        let head = fields_of(s.drop_last());
        if char_is_whitespace(s.last()) {
            head
        } else if s.len() >= 2 && !char_is_whitespace(s[s.len() - 2]) {
            head.update(head.len() - 1, head.last().push(s.last()))
        } else {
            head.push(seq![s.last()])
        }
    }
}

/// The words of a text that ends in the middle of a word: the words before
/// it, and the part of the word that is there.
proof fn lemma_fields_in_word(s: Text, start: int, end: int)
    requires
        0 <= start < end <= s.len(),
        start > 0 ==> char_is_whitespace(s[start - 1]),
        forall|k: int| start <= k < end ==> !char_is_whitespace(#[trigger] s[k]),
    ensures
        fields_of(s.take(end)) == fields_of(s.take(start)).push(s.subrange(start, end)),
    decreases end - start,
{
    let t = s.take(end);
    assert(t.drop_last() == s.take(end - 1));
    assert(t.last() == s[end - 1]);
    if end - 1 == start {
        if t.len() >= 2 {
            assert(t[t.len() - 2] == s[start - 1]);
        }
        assert(s.subrange(start, end) =~= seq![s[start]]);
    } else {
        lemma_fields_in_word(s, start, end - 1);
        assert(t[t.len() - 2] == s[end - 2]);
        let head = fields_of(s.take(start)).push(s.subrange(start, end - 1));
        assert(s.subrange(start, end - 1).push(s[end - 1]) =~= s.subrange(start, end));
        assert(head.last() == s.subrange(start, end - 1));
        assert(head.update(head.len() - 1, head.last().push(s[end - 1])) =~= fields_of(
            s.take(start),
        ).push(s.subrange(start, end)));
    }
}

/// The words of `s`.
pub fn fields(s: &str) -> (out: Vec<String>)
    ensures
        texts(out@) == fields_of(s@),
{
    let chars = to_chars(s);
    let n = chars.len();
    let mut out: Vec<String> = Vec::new();
    let mut i: usize = 0;
    assert(s@.take(0) =~= Seq::<char>::empty());
    assert(texts(out@) =~= Seq::<Text>::empty());
    while i < n
        invariant
            i <= n,
            n == chars.len(),
            chars@ == s@,
            texts(out@) == fields_of(s@.take(i as int)),
            i > 0 ==> char_is_whitespace(s@[i - 1]),
        decreases n - i,
    {
        if is_whitespace(chars[i]) {
            assert(s@.take(i + 1).drop_last() == s@.take(i as int));
            i += 1;
        } else {
            let start = i;
            let mut end = i + 1;
            while end < n && !is_whitespace(chars[end])
                invariant
                    start < end <= n,
                    n == chars.len(),
                    chars@ == s@,
                    forall|k: int| start <= k < end ==> !char_is_whitespace(#[trigger] s@[k]),
                decreases n - end,
            {
                end += 1;
            }
            let word = slice(s, start, end);
            proof {
                lemma_fields_in_word(s@, start as int, end as int);
                assert(texts(out@.push(word)) =~= texts(out@).push(word@));
            }
            out.push(word);
            if end < n {
                assert(s@.take(end + 1).drop_last() == s@.take(end as int));
                i = end + 1;
            } else {
                i = end;
                assert(s@.take(n as int) == s@);
                return out;
            }
        }
    }
    assert(s@.take(n as int) == s@);
    out
}

} // verus!
