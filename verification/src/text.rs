//! Text operations on `str` and `String`, stated over sequences of characters.

use vstd::prelude::*;
use vstd::utf8::{encode_scalar, encode_utf8};

verus! {

/// `String::push` appends one character.
pub assume_specification[ String::push ](s: &mut String, c: char)
    ensures
        final(s)@ == old(s)@.push(c),
;

/// Whether a character has the Unicode `White_Space` property.
pub open spec fn white_space(c: char) -> bool {
    let u = c as u32;
    ||| 0x09 <= u <= 0x0d
    ||| u == 0x20
    ||| u == 0x85
    ||| u == 0xa0
    ||| u == 0x1680
    ||| 0x2000 <= u <= 0x200a
    ||| u == 0x2028
    ||| u == 0x2029
    ||| u == 0x202f
    ||| u == 0x205f
    ||| u == 0x3000
}

/// Tests for the Unicode `White_Space` property.
pub fn is_whitespace(c: char) -> (b: bool)
    ensures
        b == white_space(c),
{
    let u: u32 = c as u32;
    (0x09 <= u && u <= 0x0d) || u == 0x20 || u == 0x85 || u == 0xa0 || u == 0x1680 || (0x2000 <= u
        && u <= 0x200a) || u == 0x2028 || u == 0x2029 || u == 0x202f || u == 0x205f || u == 0x3000
}

// ---------------------------------------------------------------------------
// Views of lists of strings
// ---------------------------------------------------------------------------

/// The texts held by a list of strings.
pub open spec fn texts(list: Seq<String>) -> Seq<Seq<char>> {
    list.map_values(|s: String| s@)
}

/// The text held by an optional string.
pub open spec fn opt_text(o: Option<String>) -> Option<Seq<char>> {
    match o {
        Some(s) => Some(s@),
        None => None,
    }
}

/// Appending a string to a list appends its text.
pub broadcast proof fn lemma_texts_push(list: Seq<String>, s: String)
    ensures
        #[trigger] texts(list.push(s)) == texts(list).push(s@),
{
    assert(texts(list.push(s)) =~= texts(list).push(s@));
}

/// The texts of an empty list.
pub broadcast proof fn lemma_texts_empty()
    ensures
        #[trigger] texts(Seq::<String>::empty()) == Seq::<Seq<char>>::empty(),
{
    assert(texts(Seq::<String>::empty()) =~= Seq::<Seq<char>>::empty());
}

pub broadcast group group_texts {
    lemma_texts_push,
    lemma_texts_empty,
}

/// A copy of a list of strings.
pub fn clone_strings(list: &Vec<String>) -> (r: Vec<String>)
    ensures
        texts(r@) == texts(list@),
        r@.len() == list@.len(),
{
    let mut r: Vec<String> = Vec::new();
    let mut i: usize = 0;
    while i < list.len()
        invariant
            i <= list@.len(),
            r@.len() == i,
            forall|k: int| 0 <= k < i ==> (#[trigger] r@[k])@ == list@[k]@,
        decreases list@.len() - i,
    {
        r.push(list[i].clone());
        i += 1;
    }
    assert(texts(r@) =~= texts(list@));
    r
}

// ---------------------------------------------------------------------------
// Characters
// ---------------------------------------------------------------------------

/// The characters of a text.
pub fn chars_of(s: &str) -> (r: Vec<char>)
    ensures
        r@ == s@,
{
    let mut r: Vec<char> = Vec::new();
    for c in it: s.chars()
        invariant
            r@ == it.seq().take(it.index() as int),
            it.seq() == s@,
    {
        r.push(c);
    }
    r
}

/// The text with the given characters from `from` up to `to`.
pub fn string_from(chars: &Vec<char>, from: usize, to: usize) -> (r: String)
    requires
        from <= to <= chars@.len(),
    ensures
        r@ == chars@.subrange(from as int, to as int),
{
    let mut r = String::new();
    let mut i: usize = from;
    assert(r@ =~= chars@.subrange(from as int, from as int));
    while i < to
        invariant
            from <= i <= to <= chars@.len(),
            r@ == chars@.subrange(from as int, i as int),
        decreases to - i,
    {
        r.push(chars[i]);
        assert(chars@.subrange(from as int, i + 1) =~= chars@.subrange(from as int, i as int).push(
            chars@[i as int],
        ));
        i += 1;
    }
    r
}

/// Whether two texts hold the same characters.
pub fn same(a: &str, b: &str) -> (r: bool)
    ensures
        r == (a@ == b@),
{
    a.to_owned() == b.to_owned()
}

/// Whether a list of strings holds the text `wanted`.
pub fn list_contains(list: &Vec<String>, wanted: &str) -> (r: bool)
    ensures
        r == texts(list@).contains(wanted@),
{
    let mut i: usize = 0;
    while i < list.len()
        invariant
            i <= list@.len(),
            forall|k: int| 0 <= k < i ==> (#[trigger] list@[k])@ != wanted@,
        decreases list@.len() - i,
    {
        if same(list[i].as_str(), wanted) {
            assert(texts(list@)[i as int] == wanted@);
            return true;
        }
        i += 1;
    }
    assert forall|k: int| 0 <= k < texts(list@).len() implies texts(list@)[k] != wanted@ by {
        assert(list@[k]@ != wanted@);
    }
    false
}

// ---------------------------------------------------------------------------
// Searching
// ---------------------------------------------------------------------------

/// Whether `needle` stands in `hay` at position `i`.
pub open spec fn occurs_at(hay: Seq<char>, needle: Seq<char>, i: int) -> bool {
    0 <= i && i + needle.len() <= hay.len() && hay.subrange(i, i + needle.len() as int) == needle
}

/// Whether `needle` stands anywhere in `hay`.
pub open spec fn has_substring(hay: Seq<char>, needle: Seq<char>) -> bool {
    exists|i: int| occurs_at(hay, needle, i)
}

/// Whether `hay` begins with `prefix`.
pub open spec fn has_prefix(hay: Seq<char>, prefix: Seq<char>) -> bool {
    occurs_at(hay, prefix, 0)
}

fn occurs_here(hay: &Vec<char>, needle: &Vec<char>, i: usize) -> (r: bool)
    requires
        i + needle@.len() <= hay@.len(),
    ensures
        r == occurs_at(hay@, needle@, i as int),
{
    let total: usize = hay.len();
    let mut k: usize = 0;
    while k < needle.len()
        invariant
            k <= needle@.len(),
            i + needle@.len() <= hay@.len(),
            total == hay@.len(),
            forall|m: int| 0 <= m < k ==> #[trigger] needle@[m] == hay@[i + m],
        decreases needle@.len() - k,
    {
        if hay[i + k] != needle[k] {
            assert(hay@.subrange(i as int, i + needle@.len())[k as int] != needle@[k as int]);
            return false;
        }
        k += 1;
    }
    assert(hay@.subrange(i as int, i + needle@.len()) =~= needle@);
    true
}

/// Substring search.
pub fn contains(hay: &str, needle: &str) -> (r: bool)
    ensures
        r == has_substring(hay@, needle@),
{
    let h = chars_of(hay);
    let n = chars_of(needle);
    if n.len() > h.len() {
        return false;
    }
    let last: usize = h.len() - n.len();
    let mut i: usize = 0;
    while i <= last
        invariant
            h@ == hay@,
            n@ == needle@,
            last == h@.len() - n@.len(),
            i <= last + 1,
            forall|k: int| 0 <= k < i ==> !#[trigger] occurs_at(h@, n@, k),
        decreases last + 1 - i,
    {
        if occurs_here(&h, &n, i) {
            return true;
        }
        if i == last {
            assert forall|k: int| !occurs_at(hay@, needle@, k) by {
                if 0 <= k <= last {
                    assert(!occurs_at(h@, n@, k));
                }
            }
            return false;
        }
        i += 1;
    }
    false
}

/// Prefix test.
pub fn starts_with(hay: &str, prefix: &str) -> (r: bool)
    ensures
        r == has_prefix(hay@, prefix@),
{
    let h = chars_of(hay);
    let n = chars_of(prefix);
    if n.len() > h.len() {
        return false;
    }
    occurs_here(&h, &n, 0)
}

// ---------------------------------------------------------------------------
// Trimming and case
// ---------------------------------------------------------------------------

/// A text without its leading white space.
pub open spec fn trim_start(s: Seq<char>) -> Seq<char>
    decreases s.len(),
{
    if s.len() > 0 && white_space(s.first()) {
        trim_start(s.drop_first())
    } else {
        s
    }
}

/// A text without its trailing white space.
pub open spec fn trim_end(s: Seq<char>) -> Seq<char>
    decreases s.len(),
{
    if s.len() > 0 && white_space(s.last()) {
        trim_end(s.drop_last())
    } else {
        s
    }
}

/// A text without the white space at either end.
pub open spec fn trimmed(s: Seq<char>) -> Seq<char> {
    trim_end(trim_start(s))
}

/// Removes the white space at both ends.
pub fn trim(s: &str) -> (r: String)
    ensures
        r@ == trimmed(s@),
{
    let c = chars_of(s);
    let mut from: usize = 0;
    assert(c@.subrange(0, c@.len() as int) =~= s@);
    while from < c.len() && is_whitespace(c[from])
        invariant
            from <= c@.len(),
            trim_start(c@.subrange(from as int, c@.len() as int)) == trim_start(s@),
        decreases c@.len() - from,
    {
        assert(c@.subrange(from as int, c@.len() as int).drop_first() =~= c@.subrange(
            from + 1,
            c@.len() as int,
        ));
        from += 1;
    }
    let mut to: usize = c.len();
    while to > from && is_whitespace(c[to - 1])
        invariant
            from <= to <= c@.len(),
            trim_end(c@.subrange(from as int, to as int)) == trim_end(trim_start(s@)),
        decreases to,
    {
        assert(c@.subrange(from as int, to as int).drop_last() =~= c@.subrange(
            from as int,
            to - 1,
        ));
        to -= 1;
    }
    string_from(&c, from, to)
}

/// Whether a text holds nothing but white space.
pub open spec fn is_blank(s: Seq<char>) -> bool {
    trimmed(s).len() == 0
}

/// The lower-case form of an ASCII letter; any other character as it is.
pub open spec fn ascii_lower(c: char) -> char {
    if 'A' <= c && c <= 'Z' {
        (c as u32 + 32) as char
    } else {
        c
    }
}

/// A text with its ASCII letters in lower case.
pub open spec fn lower(s: Seq<char>) -> Seq<char> {
    s.map_values(|c: char| ascii_lower(c))
}

fn lower_char(c: char) -> (r: char)
    ensures
        r == ascii_lower(c),
{
    if 'A' <= c && c <= 'Z' {
        let low: u8 = (c as u8) + 32;
        low as char
    } else {
        c
    }
}

/// Lower-cases the ASCII letters.
pub fn to_ascii_lowercase(s: &str) -> (r: String)
    ensures
        r@ == lower(s@),
{
    let c = chars_of(s);
    let mut r = String::new();
    let mut i: usize = 0;
    while i < c.len()
        invariant
            i <= c@.len(),
            r@.len() == i,
            forall|k: int| 0 <= k < i ==> #[trigger] r@[k] == ascii_lower(c@[k]),
        decreases c@.len() - i,
    {
        r.push(lower_char(c[i]));
        i += 1;
    }
    assert(r@ =~= lower(s@));
    r
}

// ---------------------------------------------------------------------------
// Decimal numbers
// ---------------------------------------------------------------------------

/// The decimal digit of a number below ten.
pub open spec fn digit(d: nat) -> char {
    (48 + d) as char
}

/// The decimal form of a natural number.
pub open spec fn decimal(n: nat) -> Seq<char>
    decreases n,
{
    if n < 10 {
        seq![digit(n)]
    } else {
        decimal(n / 10).push(digit(n % 10))
    }
}

/// The decimal form of an integer, with a minus sign where it is negative.
pub open spec fn signed_decimal(i: int) -> Seq<char> {
    if i < 0 {
        seq!['-'] + decimal((-i) as nat)
    } else {
        decimal(i as nat)
    }
}

/// Prints a natural number in decimal.
pub fn u128_to_string(n: u128) -> (r: String)
    ensures
        r@ == decimal(n as nat),
    decreases n,
{
    let low: u8 = (n % 10) as u8;
    let c: char = (48u8 + low) as char;
    if n < 10 {
        let mut r = String::new();
        r.push(c);
        assert(r@ =~= seq![digit(n as nat)]);
        r
    } else {
        let mut r = u128_to_string(n / 10);
        r.push(c);
        r
    }
}

/// Prints a natural number in decimal.
pub fn u64_to_string(n: u64) -> (r: String)
    ensures
        r@ == decimal(n as nat),
{
    u128_to_string(n as u128)
}

/// Prints a natural number in decimal.
pub fn usize_to_string(n: usize) -> (r: String)
    ensures
        r@ == decimal(n as nat),
{
    u128_to_string(n as u128)
}

/// Prints an integer in decimal.
pub fn i64_to_string(i: i64) -> (r: String)
    ensures
        r@ == signed_decimal(i as int),
{
    if i < 0 {
        let magnitude: u128 = (-(i as i128)) as u128;
        let mut r = String::new();
        r.push('-');
        let digits = u128_to_string(magnitude);
        r.append(digits.as_str());
        assert(r@ =~= seq!['-'] + decimal(magnitude as nat));
        r
    } else {
        u128_to_string(i as u128)
    }
}

/// Distinct numbers have distinct decimal forms.
pub proof fn decimal_injective(a: nat, b: nat)
    requires
        decimal(a) == decimal(b),
    ensures
        a == b,
    decreases a,
{
    if a < 10 && b < 10 {
        assert(decimal(a)[0] == digit(a));
        assert(decimal(b)[0] == digit(b));
    } else if a >= 10 && b >= 10 {
        assert(decimal(a).drop_last() =~= decimal(a / 10));
        assert(decimal(b).drop_last() =~= decimal(b / 10));
        assert(decimal(a).last() == digit(a % 10));
        assert(decimal(b).last() == digit(b % 10));
        assert(a % 10 == b % 10);
        decimal_injective(a / 10, b / 10);
    } else if a < 10 {
        decimal_nonempty(b / 10);
        assert(decimal(b).len() == decimal(b / 10).len() + 1);
        assert(decimal(a).len() == 1);
    } else {
        decimal_nonempty(a / 10);
        assert(decimal(a).len() == decimal(a / 10).len() + 1);
        assert(decimal(b).len() == 1);
    }
}

proof fn decimal_nonempty(a: nat)
    ensures
        decimal(a).len() > 0,
    decreases a,
{
    if a >= 10 {
        decimal_nonempty(a / 10);
    }
}

// ---------------------------------------------------------------------------
// Length in bytes
// ---------------------------------------------------------------------------

/// The number of bytes of a character in UTF-8.
pub open spec fn utf8_width(c: char) -> nat {
    if c as u32 <= 0x7f {
        1
    } else if c as u32 <= 0x7ff {
        2
    } else if c as u32 <= 0xffff {
        3
    } else {
        4
    }
}

/// The number of bytes of a text in UTF-8.
pub open spec fn utf8_len(s: Seq<char>) -> nat
    decreases s.len(),
{
    if s.len() == 0 {
        0
    } else {
        utf8_len(s.drop_last()) + utf8_width(s.last())
    }
}

proof fn utf8_len_cons(s: Seq<char>)
    requires
        s.len() > 0,
    ensures
        utf8_len(s) == utf8_width(s.first()) + utf8_len(s.drop_first()),
    decreases s.len(),
{
    if s.len() == 1 {
        assert(s.drop_last() =~= Seq::<char>::empty());
        assert(s.drop_first() =~= Seq::<char>::empty());
    } else {
        utf8_len_cons(s.drop_last());
        assert(s.drop_last().drop_first() =~= s.drop_first().drop_last());
    }
}

proof fn utf8_width_is_encoded_len(c: char)
    ensures
        utf8_width(c) == encode_scalar(c as u32).len(),
{
}

/// `utf8_len` counts the bytes of the UTF-8 encoding.
pub proof fn utf8_len_is_encoded_len(s: Seq<char>)
    ensures
        utf8_len(s) == encode_utf8(s).len(),
    decreases s.len(),
{
    if s.len() > 0 {
        utf8_len_cons(s);
        utf8_len_is_encoded_len(s.drop_first());
        utf8_width_is_encoded_len(s[0]);
    }
}

/// The number of bytes of a text.
pub fn byte_len(s: &str) -> (r: usize)
    ensures
        r == utf8_len(s@),
{
    let bytes = s.as_bytes();
    proof {
        utf8_len_is_encoded_len(s@);
    }
    bytes.len()
}

fn width_of(c: char) -> (r: u8)
    ensures
        r == utf8_width(c),
{
    let code: u32 = c as u32;
    if code <= 0x7f {
        1
    } else if code <= 0x7ff {
        2
    } else if code <= 0xffff {
        3
    } else {
        4
    }
}

/// The longest prefix of a text that takes at most `limit` bytes.
pub open spec fn fitting_prefix(s: Seq<char>, limit: nat) -> Seq<char>
    decreases s.len(),
{
    if utf8_len(s) <= limit {
        s
    } else {
        fitting_prefix(s.drop_last(), limit)
    }
}

/// A text that is longer than `limit` bytes cut down to that length and marked; any other as it is.
pub open spec fn shortened(s: Seq<char>, limit: nat, mark: Seq<char>) -> Seq<char> {
    if utf8_len(s) > limit {
        fitting_prefix(s, limit) + mark
    } else {
        s
    }
}

/// Cuts a text that is longer than `limit` bytes, on a character boundary, and marks the cut.
pub fn shorten(s: &str, limit: usize, mark: &str) -> (r: String)
    ensures
        r@ == shortened(s@, limit as nat, mark@),
{
    if byte_len(s) <= limit {
        return s.to_owned();
    }
    let c = chars_of(s);
    let mut size: usize = byte_len(s);
    let mut keep: usize = c.len();
    assert(c@.subrange(0, c@.len() as int) =~= s@);
    while size > limit
        invariant
            keep <= c@.len(),
            size == utf8_len(c@.subrange(0, keep as int)),
            fitting_prefix(c@.subrange(0, keep as int), limit as nat) == fitting_prefix(
                s@,
                limit as nat,
            ),
        decreases keep,
    {
        assert(keep > 0);
        let last = c[keep - 1];
        assert(c@.subrange(0, keep as int).drop_last() =~= c@.subrange(0, keep - 1));
        size = size - width_of(last) as usize;
        keep -= 1;
    }
    let mut r = string_from(&c, 0, keep);
    r.append(mark);
    r
}

/// A shortened text takes at most the limit and the mark.
pub proof fn shortened_len(s: Seq<char>, limit: nat, mark: Seq<char>)
    ensures
        utf8_len(shortened(s, limit, mark)) <= limit + utf8_len(mark),
        utf8_len(s) > limit ==> exists|kept: Seq<char>|
            #![trigger kept + mark]
            shortened(s, limit, mark) == kept + mark && kept.len() < s.len() && kept
                == s.subrange(0, kept.len() as int),
{
    if utf8_len(s) > limit {
        fitting_prefix_fits(s, limit);
        utf8_len_add(fitting_prefix(s, limit), mark);
        let kept = fitting_prefix(s, limit);
        assert(shortened(s, limit, mark) == kept + mark);
    }
}

proof fn fitting_prefix_fits(s: Seq<char>, limit: nat)
    ensures
        utf8_len(fitting_prefix(s, limit)) <= limit,
        fitting_prefix(s, limit).len() <= s.len(),
        utf8_len(s) > limit ==> fitting_prefix(s, limit).len() < s.len(),
        fitting_prefix(s, limit) == s.subrange(0, fitting_prefix(s, limit).len() as int),
    decreases s.len(),
{
    if utf8_len(s) > limit {
        fitting_prefix_fits(s.drop_last(), limit);
        let n = fitting_prefix(s, limit).len();
        assert(s.drop_last().subrange(0, n as int) =~= s.subrange(0, n as int));
    } else {
        assert(s =~= s.subrange(0, s.len() as int));
    }
}

proof fn utf8_len_add(a: Seq<char>, b: Seq<char>)
    ensures
        utf8_len(a + b) == utf8_len(a) + utf8_len(b),
    decreases b.len(),
{
    if b.len() == 0 {
        assert(a + b =~= a);
    } else {
        assert((a + b).drop_last() =~= a + b.drop_last());
        utf8_len_add(a, b.drop_last());
    }
}

// ---------------------------------------------------------------------------
// Layout
// ---------------------------------------------------------------------------

/// A text followed by as many spaces as bring it to `width` characters.
pub open spec fn padded(s: Seq<char>, width: nat) -> Seq<char> {
    s + Seq::new(
        if s.len() < width {
            (width - s.len()) as nat
        } else {
            0
        },
        |i: int| ' ',
    )
}

/// Pads a text with spaces on the right.
pub fn pad_right(s: &str, width: usize) -> (r: String)
    ensures
        r@ == padded(s@, width as nat),
{
    let mut r = s.to_owned();
    let mut n: usize = s.unicode_len();
    assert(r@ =~= s@ + Seq::new(0, |i: int| ' '));
    let start: Ghost<nat> = Ghost(s@.len());
    while n < width
        invariant
            start@ == s@.len(),
            n >= start@,
            n == start@ || n <= width,
            r@ == s@ + Seq::new((n - start@) as nat, |i: int| ' '),
        decreases width - n,
    {
        r.push(' ');
        assert(r@ =~= s@ + Seq::new((n + 1 - start@) as nat, |i: int| ' '));
        n += 1;
    }
    r
}

/// A text behind as many spaces as bring it to `width` characters.
pub open spec fn right_aligned(s: Seq<char>, width: nat) -> Seq<char> {
    Seq::new(
        if s.len() < width {
            (width - s.len()) as nat
        } else {
            0
        },
        |i: int| ' ',
    ) + s
}

/// Pads a text with spaces on the left.
pub fn pad_left(s: &str, width: usize) -> (r: String)
    ensures
        r@ == right_aligned(s@, width as nat),
{
    let len: usize = s.unicode_len();
    let mut r = String::new();
    let mut n: usize = len;
    assert(r@ =~= Seq::new(0, |i: int| ' '));
    while n < width
        invariant
            len <= n,
            n == len || n <= width,
            r@ == Seq::new((n - len) as nat, |i: int| ' '),
        decreases width - n,
    {
        r.push(' ');
        assert(r@ =~= Seq::new((n + 1 - len) as nat, |i: int| ' '));
        n += 1;
    }
    r.append(s);
    r
}

/// Texts put together with a separator between neighbours.
pub open spec fn joined(parts: Seq<Seq<char>>, sep: Seq<char>) -> Seq<char>
    decreases parts.len(),
{
    if parts.len() == 0 {
        Seq::empty()
    } else if parts.len() == 1 {
        parts[0]
    } else {
        joined(parts.drop_last(), sep) + sep + parts.last()
    }
}

/// Joins strings with a separator.
pub fn join(parts: &Vec<String>, sep: &str) -> (r: String)
    ensures
        r@ == joined(texts(parts@), sep@),
{
    let mut r = String::new();
    let mut i: usize = 0;
    assert(texts(parts@).take(0) =~= Seq::<Seq<char>>::empty());
    while i < parts.len()
        invariant
            i <= parts@.len(),
            r@ == joined(texts(parts@).take(i as int), sep@),
        decreases parts@.len() - i,
    {
        let ghost head = texts(parts@).take(i + 1);
        assert(head.drop_last() =~= texts(parts@).take(i as int));
        assert(head.last() == parts@[i as int]@);
        if i > 0 {
            r.append(sep);
        } else {
            assert(r@ + parts@[0]@ =~= parts@[0]@);
        }
        r.append(parts[i].as_str());
        i += 1;
    }
    assert(texts(parts@).take(parts@.len() as int) =~= texts(parts@));
    r
}

// ---------------------------------------------------------------------------
// Order
// ---------------------------------------------------------------------------

/// Lexicographic order by character code.
pub open spec fn text_le(a: Seq<char>, b: Seq<char>) -> bool
    decreases a.len(),
{
    if a.len() == 0 {
        true
    } else if b.len() == 0 {
        false
    } else if a[0] != b[0] {
        (a[0] as u32) < (b[0] as u32)
    } else {
        text_le(a.drop_first(), b.drop_first())
    }
}

/// Whether `a` comes no later than `b`.
pub fn not_after(a: &str, b: &str) -> (r: bool)
    ensures
        r == text_le(a@, b@),
{
    let x = chars_of(a);
    let y = chars_of(b);
    let mut i: usize = 0;
    assert(x@.subrange(0, x@.len() as int) =~= a@);
    assert(y@.subrange(0, y@.len() as int) =~= b@);
    while i < x.len() && i < y.len()
        invariant
            i <= x@.len(),
            i <= y@.len(),
            text_le(
                x@.subrange(i as int, x@.len() as int),
                y@.subrange(i as int, y@.len() as int),
            ) == text_le(a@, b@),
        decreases x@.len() - i,
    {
        let ghost xs = x@.subrange(i as int, x@.len() as int);
        let ghost ys = y@.subrange(i as int, y@.len() as int);
        assert(xs[0] == x@[i as int] && ys[0] == y@[i as int]);
        if x[i] != y[i] {
            return (x[i] as u32) < (y[i] as u32);
        }
        assert(xs.drop_first() =~= x@.subrange(i + 1, x@.len() as int));
        assert(ys.drop_first() =~= y@.subrange(i + 1, y@.len() as int));
        i += 1;
    }
    i == x.len()
}

proof fn char_code_injective(c: char, d: char)
    ensures
        c as u32 == d as u32 ==> c == d,
{
}

/// The order is total.
pub proof fn text_le_total(a: Seq<char>, b: Seq<char>)
    ensures
        text_le(a, b) || text_le(b, a),
    decreases a.len(),
{
    if a.len() > 0 && b.len() > 0 {
        if a[0] == b[0] {
            text_le_total(a.drop_first(), b.drop_first());
        } else {
            char_code_injective(a[0], b[0]);
        }
    }
}

/// The order is transitive.
pub proof fn text_le_transitive(a: Seq<char>, b: Seq<char>, c: Seq<char>)
    requires
        text_le(a, b),
        text_le(b, c),
    ensures
        text_le(a, c),
    decreases a.len(),
{
    if a.len() > 0 && b.len() > 0 && c.len() > 0 && a[0] == b[0] && b[0] == c[0] {
        text_le_transitive(a.drop_first(), b.drop_first(), c.drop_first());
    }
}

// ---------------------------------------------------------------------------
// Debugging text
// ---------------------------------------------------------------------------

/// The debugging text of a list of texts.
pub uninterp spec fn texts_debug(list: Seq<Seq<char>>) -> Seq<char>;

/// The `Debug` form of a `Vec<String>`, named by `texts_debug`.
#[verifier::external_body]
pub(crate) fn debug_texts(list: &Vec<String>) -> (r: String)
    ensures
        r@ == texts_debug(texts(list@)),
{
    format!("{:?}", list)
}

// ---------------------------------------------------------------------------
// Laws
// ---------------------------------------------------------------------------

/// Whether a text is white space throughout.
pub open spec fn all_white(s: Seq<char>) -> bool {
    forall|i: int| 0 <= i < s.len() ==> white_space(#[trigger] s[i])
}

proof fn start_splits(s: Seq<char>)
    ensures
        ({
            let t = trim_start(s);
            let k = s.len() - t.len();
            &&& 0 <= k
            &&& s == s.take(k) + t
            &&& all_white(s.take(k))
            &&& t.len() > 0 ==> !white_space(t.first())
        }),
    decreases s.len(),
{
    if s.len() > 0 && white_space(s.first()) {
        let rest = s.drop_first();
        start_splits(rest);
        let t = trim_start(s);
        let k = s.len() - t.len();
        assert forall|i: int| 0 <= i < k implies white_space(#[trigger] s.take(k)[i]) by {
            if i > 0 {
                assert(rest.take(k - 1)[i - 1] == s[i]);
            }
        }
        assert(s =~= s.take(k) + t) by {
            assert forall|i: int| k <= i < s.len() implies s[i] == t[i - k] by {
                assert(rest[i - 1] == (rest.take(k - 1) + t)[i - 1]);
            }
        }
    } else {
        assert(s =~= s.take(0) + s);
    }
}

proof fn end_splits(s: Seq<char>)
    ensures
        ({
            let t = trim_end(s);
            &&& t.len() <= s.len()
            &&& t == s.take(t.len() as int)
            &&& s == t + s.skip(t.len() as int)
            &&& all_white(s.skip(t.len() as int))
            &&& t.len() > 0 ==> !white_space(t.last())
        }),
    decreases s.len(),
{
    let t = trim_end(s);
    if s.len() > 0 && white_space(s.last()) {
        let rest = s.drop_last();
        end_splits(rest);
        let n = t.len() as int;
        assert(s.take(n) =~= rest.take(n));
        assert(s =~= t + s.skip(n));
        assert forall|i: int| 0 <= i < s.skip(n).len() implies white_space(
            #[trigger] s.skip(n)[i],
        ) by {
            if i < rest.len() - n {
                assert(rest.skip(n)[i] == s[n + i]);
            }
        }
    } else {
        assert(s =~= s.take(s.len() as int));
        assert(s =~= t + s.skip(t.len() as int));
    }
}

/// Trimming takes white space from both ends, all of it, and nothing else: a text is what was taken
/// before, what is left and what was taken behind, and what is left neither begins nor ends with
/// white space. A text is blank exactly where it is white space throughout.
pub proof fn trimming_takes_white_space(s: Seq<char>)
    ensures
        exists|before: Seq<char>, behind: Seq<char>|
            #![trigger before + trimmed(s) + behind]
            s == before + trimmed(s) + behind && all_white(before) && all_white(behind),
        trimmed(s).len() > 0 ==> !white_space(trimmed(s).first()) && !white_space(
            trimmed(s).last(),
        ),
        is_blank(s) == all_white(s),
{
    let t = trim_start(s);
    let u = trimmed(s);
    start_splits(s);
    end_splits(t);
    let before = s.take(s.len() - t.len());
    let behind = t.skip(u.len() as int);
    assert(s =~= before + u + behind);
    if u.len() > 0 {
        assert(u.first() == t.first());
        assert(s[before.len() as int] == u.first());
        assert(!all_white(s));
    } else {
        assert forall|i: int| 0 <= i < s.len() implies white_space(#[trigger] s[i]) by {
            if i < before.len() {
                assert(before[i] == s[i]);
            } else {
                assert(behind[i - before.len()] == s[i]);
            }
        }
    }
}

/// Lower case changes the capital letters of ASCII, to the letters that stand 32 codes on, and no
/// other character; doing it again changes nothing.
pub proof fn lower_case_changes_capitals(s: Seq<char>, i: int)
    requires
        0 <= i < s.len(),
    ensures
        lower(s).len() == s.len(),
        'A' <= s[i] && s[i] <= 'Z' ==> lower(s)[i] as u32 == s[i] as u32 + 32,
        !('A' <= s[i] && s[i] <= 'Z') ==> lower(s)[i] == s[i],
        lower(lower(s)) == lower(s),
{
    assert(lower(lower(s)) =~= lower(s));
}

/// Padding puts spaces on one side of a text, as many as it lacks, and changes nothing in it.
pub proof fn padding_adds_spaces(s: Seq<char>, width: nat, i: int)
    ensures
        padded(s, width).len() == if s.len() < width {
            width
        } else {
            s.len()
        },
        right_aligned(s, width).len() == padded(s, width).len(),
        padded(s, width).take(s.len() as int) == s,
        right_aligned(s, width).skip(right_aligned(s, width).len() - s.len()) == s,
        s.len() <= i < padded(s, width).len() ==> padded(s, width)[i] == ' ',
        0 <= i < right_aligned(s, width).len() - s.len() ==> right_aligned(s, width)[i] == ' ',
{
    assert(padded(s, width).take(s.len() as int) =~= s);
    assert(right_aligned(s, width).skip(right_aligned(s, width).len() - s.len()) =~= s);
}

/// What is joined holds the parts with one separator between neighbours: joining two lists, and
/// those two texts, is joining all at once.
pub proof fn joining_is_associative(a: Seq<Seq<char>>, b: Seq<Seq<char>>, sep: Seq<char>)
    requires
        a.len() > 0,
        b.len() > 0,
    ensures
        joined(a + b, sep) == joined(a, sep) + sep + joined(b, sep),
        joined(seq![a[0]], sep) == a[0],
        joined(Seq::empty(), sep).len() == 0,
    decreases b.len(),
{
    assert((a + b).drop_last() =~= a + b.drop_last());
    if b.len() == 1 {
        assert(a + b.drop_last() =~= a);
    } else {
        joining_is_associative(a, b.drop_last(), sep);
        assert(joined(a, sep) + sep + joined(b.drop_last(), sep) + sep + b.last() =~= joined(a, sep)
            + sep + (joined(b.drop_last(), sep) + sep + b.last()));
    }
}

/// Texts are ordered as in a dictionary: a text comes before those that it begins, and where two
/// texts part, the one with the smaller character code comes first.
pub proof fn texts_are_ordered_as_in_a_dictionary(
    common: Seq<char>,
    c: char,
    d: char,
    a: Seq<char>,
    b: Seq<char>,
)
    requires
        c != d,
    ensures
        text_le(common, common + a),
        a.len() > 0 ==> !text_le(common + a, common),
        text_le(common + seq![c] + a, common + seq![d] + b) == ((c as u32) < (d as u32)),
    decreases common.len(),
{
    if common.len() > 0 {
        let rest = common.drop_first();
        texts_are_ordered_as_in_a_dictionary(rest, c, d, a, b);
        assert((common + a).drop_first() =~= rest + a);
        assert((common + seq![c] + a).drop_first() =~= rest + seq![c] + a);
        assert((common + seq![d] + b).drop_first() =~= rest + seq![d] + b);
        assert((common + seq![c] + a)[0] == common[0]);
        assert((common + seq![d] + b)[0] == common[0]);
    } else {
        assert(common + a =~= a);
        assert((common + seq![c] + a)[0] == c);
        assert((common + seq![d] + b)[0] == d);
    }
}

/// A text is shortened only where it is too long, and then by no more than it must be: what is kept
/// is the longest beginning that fits.
pub proof fn shortening_keeps_what_fits(s: Seq<char>, limit: nat, mark: Seq<char>, k: int)
    requires
        0 <= k <= s.len(),
    ensures
        encode_utf8(s).len() <= limit ==> shortened(s, limit, mark) == s,
        encode_utf8(s).len() > limit && encode_utf8(s.take(k)).len() <= limit ==> {
            let out = shortened(s, limit, mark);
            &&& k + mark.len() <= out.len()
            &&& out.take(k) == s.take(k)
            &&& out.skip(out.len() - mark.len()) == mark
            &&& encode_utf8(out.take(out.len() - mark.len())).len() <= limit
        },
{
    utf8_len_is_encoded_len(s);
    utf8_len_is_encoded_len(s.take(k));
    if utf8_len(s) > limit && utf8_len(s.take(k)) <= limit {
        let kept = fitting_prefix(s, limit);
        let out = shortened(s, limit, mark);
        fitting_prefix_fits(s, limit);
        fitting_prefix_is_longest(s, limit, k);
        assert(out.take(k) =~= s.take(k)) by {
            assert forall|i: int| 0 <= i < k implies out[i] == s[i] by {
                assert(kept[i] == s.subrange(0, kept.len() as int)[i]);
            }
        }
        assert(out.skip(out.len() - mark.len()) =~= mark);
        assert(out.take(out.len() - mark.len()) =~= kept);
        utf8_len_is_encoded_len(kept);
    }
}

proof fn fitting_prefix_is_longest(s: Seq<char>, limit: nat, k: int)
    requires
        0 <= k <= s.len(),
        utf8_len(s.take(k)) <= limit,
    ensures
        fitting_prefix(s, limit).len() >= k,
    decreases s.len(),
{
    if utf8_len(s) > limit {
        if k == s.len() {
            assert(s.take(k) =~= s);
        } else {
            assert(s.drop_last().take(k) =~= s.take(k));
            fitting_prefix_is_longest(s.drop_last(), limit, k);
        }
    }
}

} // verus!
