//! Text building and scanning: decimal numbers, splitting and joining.

use vstd::prelude::*;

verus! {

/// `String::push`: appends one character at the end of the text.
#[verifier::external_body]
pub(crate) fn push_char(s: &mut String, c: char)
    ensures
        final(s)@ == old(s)@.push(c),
{
    s.push(c)
}

/// Whether two texts hold the same characters.
pub fn text_eq(a: &str, b: &str) -> (r: bool)
    ensures
        r == (a@ == b@),
{
    a.to_owned() == b.to_owned()
}

/// Two texts, one behind the other.
pub fn cat2(a: &str, b: &str) -> (r: String)
    ensures
        r@ == a@ + b@,
{
    a.to_owned().concat(b)
}

/// Three texts, one behind the other.
pub fn cat3(a: &str, b: &str, c: &str) -> (r: String)
    ensures
        r@ == a@ + b@ + c@,
{
    a.to_owned().concat(b).concat(c)
}

/// Four texts, one behind the other.
pub fn cat4(a: &str, b: &str, c: &str, d: &str) -> (r: String)
    ensures
        r@ == a@ + b@ + c@ + d@,
{
    a.to_owned().concat(b).concat(c).concat(d)
}

/// Six texts, one behind the other.
pub fn cat6(a: &str, b: &str, c: &str, d: &str, e: &str, f: &str) -> (r: String)
    ensures
        r@ == a@ + b@ + c@ + d@ + e@ + f@,
{
    a.to_owned().concat(b).concat(c).concat(d).concat(e).concat(f)
}

/// The characters of a text.
pub fn chars_of(s: &str) -> (r: Vec<char>)
    ensures
        r@ == s@,
{
    let mut out: Vec<char> = Vec::new();
    let n: usize = s.unicode_len();
    let mut it = s.chars();
    let mut i: usize = 0;
    while i < n
        invariant
            i <= n,
            n == s@.len(),
            vstd::std_specs::iter::IteratorSpec::obeys_prophetic_iter_laws(&it),
            vstd::std_specs::iter::IteratorSpec::remaining(&it) == s@.skip(i as int),
            out@ == s@.take(i as int),
        decreases n - i,
    {
        let c = it.next();
        match c {
            Some(ch) => {
                out.push(ch);
                proof {
                    assert(s@.take(i + 1) =~= s@.take(i as int).push(s@[i as int]));
                    assert(s@.skip(i as int).drop_first() =~= s@.skip(i + 1));
                }
            },
            None => {},
        }
        i = i + 1;
    }
    assert(s@.take(n as int) =~= s@);
    out
}

// ---------------------------------------------------------------------------
// Decimal numbers
// ---------------------------------------------------------------------------

/// `c` is one of `0`..`9`.
pub open spec fn is_dec_digit(c: char) -> bool {
    48 <= c as u32 <= 57
}

/// The number that a decimal digit stands for.
pub open spec fn dec_digit(c: char) -> nat {
    (c as u32 - 48) as nat
}

/// The decimal digit that stands for `d`.
pub open spec fn digit_char(d: nat) -> char {
    (48 + d) as char
}

/// The decimal notation of `n`, without leading zeros.
pub open spec fn decimal(n: nat) -> Seq<char>
    decreases n,
{
    if n < 10 {
        seq![digit_char(n)]
    } else {
        decimal(n / 10).push(digit_char(n % 10))
    }
}

/// Every character is a decimal digit.
pub open spec fn all_digits(s: Seq<char>) -> bool {
    forall|i: int| 0 <= i < s.len() ==> is_dec_digit(#[trigger] s[i])
}

/// The number that a sequence of decimal digits stands for.
pub open spec fn decimal_value(s: Seq<char>) -> nat
    decreases s.len(),
{
    if s.len() == 0 {
        0
    } else {
        decimal_value(s.drop_last()) * 10 + dec_digit(s.last())
    }
}

/// The digits of a number's text: what follows an optional `+`.
pub open spec fn unsigned_digits(s: Seq<char>) -> Seq<char> {
    if s.len() > 0 && s[0] == '+' {
        s.skip(1)
    } else {
        s
    }
}

/// Reads an unsigned decimal number of at most `max`: an optional `+`, then at
/// least one digit and nothing else.
pub open spec fn read_decimal(s: Seq<char>, max: nat) -> Option<nat> {
    let digits = unsigned_digits(s);
    if digits.len() > 0 && all_digits(digits) && decimal_value(digits) <= max {
        Some(decimal_value(digits))
    } else {
        None
    }
}

proof fn lemma_decimal_value_prefix(s: Seq<char>, k: int)
    requires
        0 <= k <= s.len(),
    ensures
        decimal_value(s.take(k)) <= decimal_value(s),
    decreases s.len(),
{
    if k == s.len() {
        assert(s.take(k) =~= s);
    } else {
        lemma_decimal_value_prefix(s.drop_last(), k);
        assert(s.drop_last().take(k) =~= s.take(k));
    }
}

/// Reading what was written gives the number back: the decimal notation of any
/// number within the limit is read as that number.
pub proof fn law_decimal_round_trip(n: nat, max: nat)
    requires
        n <= max,
    ensures
        read_decimal(decimal(n), max) == Some(n),
{
    lemma_decimal(n);
}

/// The decimal notation of a number consists of digits, begins with no sign
/// and stands for that number.
pub proof fn lemma_decimal(n: nat)
    ensures
        decimal(n).len() > 0,
        all_digits(decimal(n)),
        decimal_value(decimal(n)) == n,
        unsigned_digits(decimal(n)) == decimal(n),
    decreases n,
{
    if n < 10 {
        let s = seq![digit_char(n)];
        assert(s.drop_last() =~= Seq::<char>::empty());
        assert(decimal_value(s.drop_last()) == 0);
        assert(s.last() == digit_char(n));
    } else {
        lemma_decimal(n / 10);
        let p = decimal(n / 10);
        let s = p.push(digit_char(n % 10));
        assert(s.drop_last() =~= p);
    }
}

/// The decimal notation of `n`.
pub fn render_decimal(n: u64) -> (r: String)
    ensures
        r@ == decimal(n as nat),
    decreases n,
{
    let d: u8 = (n % 10) as u8;
    let c: char = (48u8 + d) as char;
    if n < 10 {
        let mut s = String::new();
        push_char(&mut s, c);
        assert(s@ =~= seq![digit_char(n as nat)]);
        s
    } else {
        let mut s = render_decimal(n / 10);
        push_char(&mut s, c);
        s
    }
}

/// The decimal notation of a number that may be negative.
pub open spec fn signed_decimal(n: int) -> Seq<char> {
    if n < 0 {
        seq!['-'] + decimal((-n) as nat)
    } else {
        decimal(n as nat)
    }
}

/// The decimal notation of a number that may be negative.
pub fn render_signed(n: i32) -> (r: String)
    ensures
        r@ == signed_decimal(n as int),
{
    if n < 0 {
        let mut s = String::new();
        push_char(&mut s, '-');
        s.append(render_decimal((-(n as i64)) as u64).as_str());
        assert(s@ =~= signed_decimal(n as int));
        s
    } else {
        render_decimal(n as u64)
    }
}

/// Reads an unsigned decimal number of at most `max`.
pub fn parse_decimal(s: &str, max: u64) -> (r: Option<u64>)
    ensures
        match r {
            Some(v) => read_decimal(s@, max as nat) == Some(v as nat),
            None => read_decimal(s@, max as nat) is None,
        },
{
    let chars = chars_of(s);
    let n: usize = chars.len();
    let start: usize = if n > 0 && chars[0] == '+' { 1 } else { 0 };
    if start == n {
        return None;
    }
    let ghost digits = unsigned_digits(s@);
    assert(digits =~= s@.skip(start as int));
    let mut acc: u64 = 0;
    let mut i: usize = start;
    while i < n
        invariant
            start <= i <= n,
            start <= 1,
            n == chars@.len(),
            chars@ == s@,
            digits == s@.skip(start as int),
            digits == unsigned_digits(s@),
            acc <= max,
            acc == decimal_value(digits.take(i - start)),
            forall|j: int| 0 <= j < i - start ==> is_dec_digit(#[trigger] digits[j]),
        decreases n - i,
    {
        let c = chars[i];
        let ghost k = i - start;
        assert(digits[k] == c);
        let code: u32 = c as u32;
        if code < 48 || code > 57 {
            assert(!is_dec_digit(digits[k]));
            return None;
        }
        let d: u64 = (code - 48) as u64;
        proof {
            assert(digits.take(k + 1).drop_last() =~= digits.take(k));
            assert(digits.take(k + 1).last() == c);
            lemma_decimal_value_prefix(digits, k + 1);
        }
        if d > max || acc > (max - d) / 10 {
            return None;
        }
        acc = acc * 10 + d;
        i = i + 1;
    }
    assert(digits.take(n - start) =~= digits);
    Some(acc)
}

// ---------------------------------------------------------------------------
// Splitting
// ---------------------------------------------------------------------------

/// The text before and after the first `c`, where there is one.
pub open spec fn split_once_at(s: Seq<char>, c: char) -> Option<(Seq<char>, Seq<char>)> {
    match s.index_of_first(c) {
        Some(i) => Some((s.take(i), s.skip(i + 1))),
        None => None,
    }
}

/// The view of a pair of texts.
pub open spec fn pair_view(p: Option<(&str, &str)>) -> Option<(Seq<char>, Seq<char>)> {
    match p {
        Some((a, b)) => Some((a@, b@)),
        None => None,
    }
}

proof fn lemma_first_index<A>(s: Seq<A>, c: A, i: int)
    requires
        0 <= i < s.len(),
        s[i] == c,
        forall|j: int| 0 <= j < i ==> s[j] != c,
    ensures
        s.index_of_first(c) == Some(i),
{
    s.index_of_first_ensures(c);
    assert(s.contains(c));
    let k = s.index_of_first(c)->0;
    if k < i {
        assert(s[k] != c);
    } else if i < k {
        assert(s[i] != c);
    }
}

/// Splits a text at the first `c`.
pub fn split_once<'a>(s: &'a str, c: char) -> (r: Option<(&'a str, &'a str)>)
    ensures
        pair_view(r) == split_once_at(s@, c),
{
    let chars = chars_of(s);
    let n: usize = chars.len();
    let mut i: usize = 0;
    while i < n
        invariant
            i <= n,
            n == chars@.len(),
            chars@ == s@,
            forall|j: int| 0 <= j < i ==> s@[j] != c,
        decreases n - i,
    {
        if chars[i] == c {
            proof {
                lemma_first_index(s@, c, i as int);
            }
            let head = s.substring_char(0, i);
            let tail = s.substring_char(i + 1, n);
            assert(head@ =~= s@.take(i as int));
            assert(tail@ =~= s@.skip(i + 1));
            return Some((head, tail));
        }
        i = i + 1;
    }
    proof {
        s@.index_of_first_ensures(c);
    }
    None
}

/// Two `c` in a row stand at position `i`.
pub open spec fn pair_at(s: Seq<char>, c: char, i: int) -> bool {
    0 <= i && i + 1 < s.len() && s[i] == c && s[i + 1] == c
}

/// The texts before and after the first two `c` in a row at or after `from`.
pub open spec fn split_pair_from(s: Seq<char>, c: char, from: int) -> Option<
    (Seq<char>, Seq<char>),
>
    decreases s.len() - from,
{
    if from < 0 || from + 1 >= s.len() {
        None
    } else if pair_at(s, c, from) {
        Some((s.take(from), s.skip(from + 2)))
    } else {
        split_pair_from(s, c, from + 1)
    }
}

/// Splits a text at the first two `c` in a row.
pub fn split_pair<'a>(s: &'a str, c: char) -> (r: Option<(&'a str, &'a str)>)
    ensures
        pair_view(r) == split_pair_from(s@, c, 0),
{
    let chars = chars_of(s);
    let n: usize = chars.len();
    let mut i: usize = 0;
    while i < n && n - i > 1
        invariant
            i <= n,
            n == chars@.len(),
            chars@ == s@,
            split_pair_from(s@, c, 0) == split_pair_from(s@, c, i as int),
        decreases n - i,
    {
        if chars[i] == c && chars[i + 1] == c {
            let head = s.substring_char(0, i);
            let tail = s.substring_char(i + 2, n);
            assert(head@ =~= s@.take(i as int));
            assert(tail@ =~= s@.skip(i + 2));
            return Some((head, tail));
        }
        i = i + 1;
    }
    None
}

/// A text that begins with `head`, which holds no `c`, then goes on with `c`,
/// is split there.
pub proof fn lemma_split_once_after(head: Seq<char>, c: char, tail: Seq<char>)
    requires
        !head.contains(c),
    ensures
        split_once_at(head + seq![c] + tail, c) == Some((head, tail)),
{
    let s = head + seq![c] + tail;
    let i = head.len() as int;
    assert(s[i] == c);
    assert forall|j: int| 0 <= j < i implies s[j] != c by {
        assert(s[j] == head[j]);
    }
    lemma_first_index(s, c, i);
    assert(s.take(i) =~= head);
    assert(s.skip(i + 1) =~= tail);
}

/// A decimal notation holds digits only.
pub proof fn lemma_decimal_lacks(n: nat, c: char)
    requires
        !is_dec_digit(c),
    ensures
        !decimal(n).contains(c),
{
    lemma_decimal(n);
}

// ---------------------------------------------------------------------------
// Joining
// ---------------------------------------------------------------------------

/// The decimal notations of `numbers`, with `sep` between neighbours.
pub open spec fn joined_decimals(numbers: Seq<u32>, sep: Seq<char>) -> Seq<char>
    decreases numbers.len(),
{
    if numbers.len() == 0 {
        Seq::empty()
    } else if numbers.len() == 1 {
        decimal(numbers[0] as nat)
    } else {
        joined_decimals(numbers.drop_last(), sep) + sep + decimal(numbers.last() as nat)
    }
}

/// Joins the decimal notations of `numbers` with `sep`.
pub fn join_decimals(numbers: &Vec<u32>, sep: &str) -> (r: String)
    ensures
        r@ == joined_decimals(numbers@, sep@),
{
    let mut out = String::new();
    let mut i: usize = 0;
    while i < numbers.len()
        invariant
            i <= numbers@.len(),
            out@ == joined_decimals(numbers@.take(i as int), sep@),
        decreases numbers.len() - i,
    {
        let text = render_decimal(numbers[i] as u64);
        if i > 0 {
            out.append(sep);
        }
        let ghost before = out@;
        out.append(text.as_str());
        proof {
            let t = numbers@.take(i + 1);
            assert(t.drop_last() =~= numbers@.take(i as int));
            assert(t.last() == numbers@[i as int]);
            if i == 0 {
                assert(t[0] == numbers@[0]);
                assert(before =~= Seq::<char>::empty());
                assert(out@ =~= decimal(numbers@[0] as nat));
            }
        }
        i = i + 1;
    }
    assert(numbers@.take(numbers@.len() as int) =~= numbers@);
    out
}

} // verus!
