//! Characters and text: what the command parser and the response codec share.
//!
//! Text is handled as sequences of `char`. A `&str` is turned into a `Vec<char>`
//! once, the work is done on slices of it, and a `String` is built at the end.

use vstd::prelude::*;
use vstd::string::StringExecFns;
use vstd::utf8::encode_utf8;

verus! {

/// `String::push` appends one character.
pub assume_specification[ String::push ](s: &mut String, c: char)
    ensures
        final(s)@ == old(s)@.push(c),
;

/// The characters of `s`, in order.
pub fn chars_of(s: &str) -> (v: Vec<char>)
    ensures
        v@ == s@,
{
    let mut v: Vec<char> = Vec::new();
    for c in it: s.chars()
        invariant
            it.seq() == s@,
            v@ == s@.take(it.index() as int),
    {
        v.push(c);
    }
    v
}

/// Appends the characters of `chars` to `s`.
pub fn push_chars(s: &mut String, chars: &[char])
    ensures
        final(s)@ == old(s)@ + chars@,
{
    let mut i: usize = 0;
    while i < chars.len()
        invariant
            i <= chars.len(),
            s@ == old(s)@ + chars@.take(i as int),
        decreases chars.len() - i,
    {
        s.push(chars[i]);
        i = i + 1;
    }
}

/// A `String` that holds the characters of `chars`.
pub fn string_of(chars: &[char]) -> (s: String)
    ensures
        s@ == chars@,
{
    let mut s = String::new();
    push_chars(&mut s, chars);
    s
}

/// The characters with the Unicode property `White_Space`.
pub open spec fn whitespace(c: char) -> bool {
    let u = c as u32;
    ||| 0x09 <= u <= 0x0D
    ||| u == 0x20
    ||| u == 0x85
    ||| u == 0xA0
    ||| u == 0x1680
    ||| 0x2000 <= u <= 0x200A
    ||| u == 0x2028
    ||| u == 0x2029
    ||| u == 0x202F
    ||| u == 0x205F
    ||| u == 0x3000
}

/// Whether `c` is white space.
pub fn is_whitespace(c: char) -> (b: bool)
    ensures
        b == whitespace(c),
{
    let u: u32 = c as u32;
    (0x09 <= u && u <= 0x0D) || u == 0x20 || u == 0x85 || u == 0xA0 || u == 0x1680 || (0x2000 <= u
        && u <= 0x200A) || u == 0x2028 || u == 0x2029 || u == 0x202F || u == 0x205F || u == 0x3000
}

/// `s` without its leading white space.
pub open spec fn trim_start(s: Seq<char>) -> Seq<char>
    decreases s.len(),
{
    if s.len() > 0 && whitespace(s.first()) {
        trim_start(s.drop_first())
    } else {
        s
    }
}

/// `s` without its trailing white space.
pub open spec fn trim_end(s: Seq<char>) -> Seq<char>
    decreases s.len(),
{
    if s.len() > 0 && whitespace(s.last()) {
        trim_end(s.drop_last())
    } else {
        s
    }
}

/// `s` without its leading and trailing white space.
pub open spec fn trim(s: Seq<char>) -> Seq<char> {
    trim_end(trim_start(s))
}

/// Neither the first nor the last character of `s` is white space.
pub open spec fn trimmed(s: Seq<char>) -> bool {
    s.len() > 0 ==> !whitespace(s.first()) && !whitespace(s.last())
}

/// Every character of `s` is white space.
pub open spec fn blank(s: Seq<char>) -> bool {
    forall|i: int| 0 <= i < s.len() ==> whitespace(#[trigger] s[i])
}

/// `trim_start` drops a prefix of white space and stops at the first other character.
pub proof fn lemma_trim_start(s: Seq<char>)
    ensures
        trim_start(s).len() <= s.len(),
        trim_start(s) == s.subrange(s.len() - trim_start(s).len(), s.len() as int),
        blank(s.subrange(0, s.len() - trim_start(s).len())),
        trim_start(s).len() > 0 ==> !whitespace(trim_start(s).first()),
    decreases s.len(),
{
    if s.len() > 0 && whitespace(s.first()) {
        let t = s.drop_first();
        lemma_trim_start(t);
        let k = s.len() - trim_start(s).len();
        assert(trim_start(s) =~= s.subrange(k, s.len() as int));
        assert forall|i: int| 0 <= i < k implies whitespace(#[trigger] s.subrange(0, k)[i]) by {
            if i > 0 {
                assert(s.subrange(0, k)[i] == t.subrange(0, k - 1)[i - 1]);
            }
        }
    } else {
        assert(trim_start(s) =~= s.subrange(0, s.len() as int));
    }
}

/// `trim_end` drops a suffix of white space and stops at the last other character.
pub proof fn lemma_trim_end(s: Seq<char>)
    ensures
        trim_end(s).len() <= s.len(),
        trim_end(s) == s.subrange(0, trim_end(s).len() as int),
        blank(s.subrange(trim_end(s).len() as int, s.len() as int)),
        trim_end(s).len() > 0 ==> !whitespace(trim_end(s).last()),
    decreases s.len(),
{
    if s.len() > 0 && whitespace(s.last()) {
        let t = s.drop_last();
        lemma_trim_end(t);
        let k = trim_end(s).len() as int;
        assert(trim_end(s) =~= s.subrange(0, k));
        assert forall|i: int| 0 <= i < s.len() - k implies whitespace(
            #[trigger] s.subrange(k, s.len() as int)[i],
        ) by {
            if i < s.len() - k - 1 {
                assert(s.subrange(k, s.len() as int)[i] == t.subrange(k, t.len() as int)[i]);
            }
        }
    } else {
        assert(trim_end(s) =~= s.subrange(0, s.len() as int));
    }
}

/// What `trim` leaves neither starts nor ends with white space.
pub proof fn lemma_trim_is_trimmed(s: Seq<char>)
    ensures
        trimmed(trim(s)),
{
    let a = trim_start(s);
    lemma_trim_start(s);
    lemma_trim_end(a);
    let r = trim(s);
    if r.len() > 0 {
        assert(r.first() == a.first());
    }
}

/// `trim` changes nothing in a text that neither starts nor ends with white space.
pub proof fn lemma_trim_of_trimmed(s: Seq<char>)
    requires
        trimmed(s),
    ensures
        trim(s) == s,
{
}

/// Trimming twice is trimming once.
pub proof fn lemma_trim_idempotent(s: Seq<char>)
    ensures
        trim(trim(s)) == trim(s),
{
    lemma_trim_is_trimmed(s);
    lemma_trim_of_trimmed(trim(s));
}

/// A text of white space alone trims to nothing, and no other does.
pub proof fn lemma_trim_blank(s: Seq<char>)
    ensures
        trim(s).len() == 0 <==> blank(s),
{
    lemma_trim_start(s);
    lemma_trim_end(trim_start(s));
    let a = trim_start(s);
    let k = s.len() - a.len();
    if blank(s) {
        if a.len() > 0 {
            assert(a.first() == s[k]);
        }
    }
    if trim(s).len() == 0 {
        if a.len() > 0 {
            assert(!whitespace(a.first()));
            assert(trim_end(a).len() > 0) by {
                lemma_trim_end_keeps(a);
            }
        }
        assert forall|i: int| 0 <= i < s.len() implies whitespace(#[trigger] s[i]) by {
            assert(s[i] == s.subrange(0, k)[i]);
        }
    }
}

/// `trim_end` never drops a character that is not white space.
pub proof fn lemma_trim_end_keeps(s: Seq<char>)
    ensures
        forall|i: int| 0 <= i < s.len() && !whitespace(#[trigger] s[i]) ==> i < trim_end(s).len(),
    decreases s.len(),
{
    if s.len() > 0 && whitespace(s.last()) {
        let t = s.drop_last();
        lemma_trim_end_keeps(t);
        assert forall|i: int| 0 <= i < s.len() && !whitespace(#[trigger] s[i]) implies i
            < trim_end(s).len() by {
            assert(s[i] == t[i]);
        }
    }
}

/// The part of `s` that is left when the white space at both ends is dropped.
pub fn trim_slice(s: &[char]) -> (r: &[char])
    ensures
        r@ == trim(s@),
{
    let mut lo: usize = 0;
    let n: usize = s.len();
    assert(s@.subrange(0, n as int) =~= s@);
    while lo < n && is_whitespace(s[lo])
        invariant
            lo <= n,
            n == s@.len(),
            trim_start(s@) == trim_start(s@.subrange(lo as int, n as int)),
        decreases n - lo,
    {
        assert(s@.subrange(lo as int, n as int).drop_first() =~= s@.subrange(lo + 1, n as int));
        lo = lo + 1;
    }
    let mut hi: usize = n;
    assert(trim_start(s@) =~= s@.subrange(lo as int, n as int));
    while lo < hi && is_whitespace(s[hi - 1])
        invariant
            lo <= hi <= n,
            n == s@.len(),
            trim(s@) == trim_end(s@.subrange(lo as int, hi as int)),
        decreases hi - lo,
    {
        assert(s@.subrange(lo as int, hi as int).drop_last() =~= s@.subrange(lo as int, hi - 1));
        hi = hi - 1;
    }
    &s[lo..hi]
}

/// The place of the first space in `s`: its index, or the length of `s` if it has none.
pub open spec fn first_space(s: Seq<char>) -> int
    decreases s.len(),
{
    if s.len() == 0 || s.first() == ' ' {
        0
    } else {
        1 + first_space(s.drop_first())
    }
}

/// `first_space` is within `s`, no space stands before it, and a space stands
/// at it unless it is the end of `s`.
pub proof fn lemma_first_space(s: Seq<char>)
    ensures
        0 <= first_space(s) <= s.len(),
        forall|i: int| 0 <= i < first_space(s) ==> s[i] != ' ',
        first_space(s) < s.len() ==> s[first_space(s)] == ' ',
    decreases s.len(),
{
    if s.len() == 0 || s.first() == ' ' {
    } else {
        let t = s.drop_first();
        lemma_first_space(t);
        assert forall|i: int| 0 <= i < first_space(s) implies s[i] != ' ' by {
            if i > 0 {
                assert(s[i] == t[i - 1]);
            }
        }
    }
}

/// An index with the properties of `first_space` is `first_space`.
pub proof fn lemma_first_space_is(s: Seq<char>, k: int)
    requires
        0 <= k <= s.len(),
        forall|i: int| 0 <= i < k ==> s[i] != ' ',
        k < s.len() ==> s[k] == ' ',
    ensures
        first_space(s) == k,
{
    lemma_first_space(s);
    let f = first_space(s);
    if f < k {
        assert(s[f] == ' ');
    } else if k < f {
        assert(s[k] == ' ');
    }
}

/// The index of the first space in `s`, or the length of `s` if it has none.
pub fn find_space(s: &[char]) -> (k: usize)
    ensures
        k == first_space(s@),
{
    let mut k: usize = 0;
    while k < s.len() && s[k] != ' '
        invariant
            k <= s.len(),
            forall|i: int| 0 <= i < k ==> s@[i] != ' ',
        decreases s.len() - k,
    {
        k = k + 1;
    }
    proof {
        lemma_first_space_is(s@, k as int);
    }
    k
}

/// An ASCII upper-case letter as its lower-case letter; any other character as it is.
pub open spec fn ascii_lower(c: char) -> char {
    if 'A' <= c <= 'Z' {
        ((c as u8) + 32) as char
    } else {
        c
    }
}

/// An ASCII lower-case letter as its upper-case letter; any other character as it is.
pub open spec fn ascii_upper(c: char) -> char {
    if 'a' <= c <= 'z' {
        ((c as u8) - 32) as char
    } else {
        c
    }
}

/// `c` with an ASCII upper-case letter turned into lower case.
pub fn to_ascii_lower(c: char) -> (r: char)
    ensures
        r == ascii_lower(c),
{
    if 'A' <= c && c <= 'Z' {
        let b: u8 = c as u8;
        (b + 32) as char
    } else {
        c
    }
}

/// `c` with an ASCII lower-case letter turned into upper case.
pub fn to_ascii_upper(c: char) -> (r: char)
    ensures
        r == ascii_upper(c),
{
    if 'a' <= c && c <= 'z' {
        let b: u8 = c as u8;
        (b - 32) as char
    } else {
        c
    }
}

/// `a` and `b` are the same text but for the case of their ASCII letters.
pub open spec fn same_ignoring_ascii_case(a: Seq<char>, b: Seq<char>) -> bool {
    &&& a.len() == b.len()
    &&& forall|i: int| 0 <= i < a.len() ==> ascii_lower(#[trigger] a[i]) == ascii_lower(b[i])
}

/// `s` with every `from` replaced by `to`.
pub open spec fn replace_char(s: Seq<char>, from: char, to: char) -> Seq<char> {
    Seq::new(s.len(), |i: int| if s[i] == from { to } else { s[i] })
}

/// A `String` of the characters of `s`, with every `from` replaced by `to`.
pub fn replaced(s: &[char], from: char, to: char) -> (r: String)
    ensures
        r@ == replace_char(s@, from, to),
{
    let mut r = String::new();
    let mut i: usize = 0;
    while i < s.len()
        invariant
            i <= s.len(),
            r@ == replace_char(s@, from, to).take(i as int),
        decreases s.len() - i,
    {
        let c = s[i];
        if c == from {
            r.push(to);
        } else {
            r.push(c);
        }
        assert(replace_char(s@, from, to).take(i + 1) =~= replace_char(s@, from, to).take(
            i as int,
        ).push(replace_char(s@, from, to)[i as int]));
        i = i + 1;
    }
    assert(replace_char(s@, from, to).take(s.len() as int) =~= replace_char(s@, from, to));
    r
}

/// The decimal digit for `d`.
pub open spec fn digit(d: nat) -> char
    recommends
        d < 10,
{
    ((48 + d) as u8) as char
}

/// `n` in decimal, without leading zeros.
pub open spec fn decimal(n: nat) -> Seq<char>
    decreases n,
{
    if n < 10 {
        seq![digit(n)]
    } else {
        decimal(n / 10).push(digit(n % 10))
    }
}

/// `n` in decimal, with a minus sign in front if it is negative.
pub open spec fn signed_decimal(n: int) -> Seq<char> {
    if n < 0 {
        seq!['-'] + decimal((-n) as nat)
    } else {
        decimal(n as nat)
    }
}

/// `n` times the character `c`; nothing if `n` is not positive.
pub open spec fn repeat(c: char, n: int) -> Seq<char> {
    Seq::new(
        if n > 0 {
            n as nat
        } else {
            0
        },
        |i: int| c,
    )
}

/// `t` with as many `c` in front as it takes to reach `width` characters.
pub open spec fn pad_left(t: Seq<char>, width: nat, c: char) -> Seq<char> {
    repeat(c, width - t.len()) + t
}

/// Appends `n` in decimal to `s`.
pub fn push_decimal(s: &mut String, n: u64)
    ensures
        final(s)@ == old(s)@ + decimal(n as nat),
    decreases n,
{
    if n >= 10 {
        push_decimal(s, n / 10);
    }
    let d: u8 = (n % 10) as u8;
    s.push((48 + d) as char);
    assert(s@ =~= old(s)@ + decimal(n as nat));
}

/// `n` in decimal.
pub fn decimal_string(n: u64) -> (r: String)
    ensures
        r@ == decimal(n as nat),
{
    let mut r = String::new();
    push_decimal(&mut r, n);
    r
}

/// `n` in decimal, with a minus sign in front if it is negative.
pub fn signed_decimal_string(n: i64) -> (r: String)
    ensures
        r@ == signed_decimal(n as int),
{
    let mut r = String::new();
    if n < 0 {
        r.push('-');
        let m: u64 = if n == i64::MIN {
            9223372036854775808u64
        } else {
            (-n) as u64
        };
        push_decimal(&mut r, m);
    } else {
        push_decimal(&mut r, n as u64);
    }
    r
}

/// Appends `t` to `s`, after as many `c` as it takes to fill `width` characters.
pub fn push_padded(s: &mut String, t: &str, width: usize, c: char)
    ensures
        final(s)@ == old(s)@ + pad_left(t@, width as nat, c),
{
    let len: usize = t.unicode_len();
    let mut i: usize = len;
    while i < width
        invariant
            len == t@.len(),
            len <= i,
            i == len || i <= width,
            s@ == old(s)@ + repeat(c, i - len),
        decreases width - i,
    {
        s.push(c);
        assert(repeat(c, i - len).push(c) =~= repeat(c, i + 1 - len));
        i = i + 1;
    }
    assert(repeat(c, i - len) =~= repeat(c, width - len));
    s.append(t);
}

/// `s` with a backslash put in front of every double quote.
pub open spec fn escape_quotes(s: Seq<char>) -> Seq<char>
    decreases s.len(),
{
    if s.len() == 0 {
        seq![]
    } else if s.last() == '"' {
        escape_quotes(s.drop_last()).push('\\').push('"')
    } else {
        escape_quotes(s.drop_last()).push(s.last())
    }
}

/// Appends `t` to `s`, with a backslash in front of every double quote.
pub fn push_escaped(s: &mut String, t: &str)
    ensures
        final(s)@ == old(s)@ + escape_quotes(t@),
{
    for c in it: t.chars()
        invariant
            it.seq() == t@,
            s@ == old(s)@ + escape_quotes(t@.take(it.index() as int)),
    {
        assert(t@.take(it.index() + 1).drop_last() =~= t@.take(it.index() as int));
        if c == '"' {
            s.push('\\');
            s.push('"');
        } else {
            s.push(c);
        }
    }
    assert(t@.take(t@.len() as int) =~= t@);
}

/// Whether `word` and `text` are the same but for the case of their ASCII letters.
pub fn matches_ignoring_case(word: &[char], text: &str) -> (r: bool)
    ensures
        r == same_ignoring_ascii_case(word@, text@),
{
    let mut i: usize = 0;
    for c in it: text.chars()
        invariant
            it.seq() == text@,
            i == it.index(),
            i <= word.len(),
            forall|j: int| 0 <= j < i ==> ascii_lower(#[trigger] word@[j]) == ascii_lower(text@[j]),
    {
        if i >= word.len() {
            return false;
        }
        if to_ascii_lower(word[i]) != to_ascii_lower(c) {
            return false;
        }
        i = i + 1;
    }
    i == word.len()
}

/// Whether `word` holds the characters of `text`.
pub fn same_chars_as(word: &[char], text: &str) -> (r: bool)
    ensures
        r == (word@ == text@),
{
    let mut i: usize = 0;
    for c in it: text.chars()
        invariant
            it.seq() == text@,
            i == it.index(),
            i <= word.len(),
            forall|j: int| 0 <= j < i ==> word@[j] == text@[j],
    {
        if i >= word.len() {
            return false;
        }
        if word[i] != c {
            assert(word@[i as int] != text@[i as int]);
            return false;
        }
        i = i + 1;
    }
    if i == word.len() {
        assert(word@ =~= text@);
        true
    } else {
        false
    }
}

/// A path as the server keeps it: every backslash is a slash.
pub open spec fn normalized_path(s: Seq<char>) -> Seq<char> {
    replace_char(s, '\\', '/')
}

/// The path `s` with every backslash turned into a slash.
pub fn normalize_path(s: &[char]) -> (r: String)
    ensures
        r@ == normalized_path(s@),
{
    replaced(s, '\\', '/')
}

/// Normalizing a path twice is normalizing it once, and a normalized path
/// holds no backslash.
pub proof fn lemma_normalized_path(s: Seq<char>)
    ensures
        normalized_path(normalized_path(s)) == normalized_path(s),
        forall|i: int| 0 <= i < normalized_path(s).len() ==> normalized_path(s)[i] != '\\',
        normalized_path(s).len() == s.len(),
{
    assert(normalized_path(normalized_path(s)) =~= normalized_path(s));
}

/// The UTF-8 encoding of two texts, one after the other, is the encoding of
/// the first followed by the encoding of the second.
pub proof fn lemma_encode_utf8_concat(a: Seq<char>, b: Seq<char>)
    ensures
        encode_utf8(a + b) == encode_utf8(a) + encode_utf8(b),
    decreases a.len(),
{
    if a.len() == 0 {
        assert(a + b =~= b);
        assert(encode_utf8(a) + encode_utf8(b) =~= encode_utf8(b));
    } else {
        lemma_encode_utf8_concat(a.drop_first(), b);
        assert((a + b).drop_first() =~= a.drop_first() + b);
        assert(encode_utf8(a + b) =~= encode_utf8(a) + encode_utf8(b));
    }
}

} // verus!
