//! Character-level text helpers shared by the parsers and formatters.
use vstd::prelude::*;

verus! {

/// The Unicode `White_Space` property, the set that `char::is_whitespace`
/// and `str::trim` use.
pub open spec fn is_white_space(c: char) -> bool {
    let v = c as u32;
    ||| 0x9 <= v <= 0xd
    ||| v == 0x20
    ||| v == 0x85
    ||| v == 0xa0
    ||| v == 0x1680
    ||| 0x2000 <= v <= 0x200a
    ||| v == 0x2028
    ||| v == 0x2029
    ||| v == 0x202f
    ||| v == 0x205f
    ||| v == 0x3000
}

/// `s` without its leading white space.
pub open spec fn trim_start_seq(s: Seq<char>) -> Seq<char>
    decreases s.len(),
{
    if s.len() > 0 && is_white_space(s[0]) {
        trim_start_seq(s.drop_first())
    } else {
        s
    }
}

/// `s` without its trailing white space.
pub open spec fn trim_end_seq(s: Seq<char>) -> Seq<char>
    decreases s.len(),
{
    if s.len() > 0 && is_white_space(s.last()) {
        trim_end_seq(s.drop_last())
    } else {
        s
    }
}

/// `s` without leading and trailing white space, as `str::trim` gives it.
pub open spec fn trim_seq(s: Seq<char>) -> Seq<char> {
    trim_end_seq(trim_start_seq(s))
}

pub fn char_is_white_space(c: char) -> (r: bool)
    ensures
        r == is_white_space(c),
{
    let v = c as u32;
    (0x9 <= v && v <= 0xd) || v == 0x20 || v == 0x85 || v == 0xa0 || v == 0x1680 || (0x2000 <= v
        && v <= 0x200a) || v == 0x2028 || v == 0x2029 || v == 0x202f || v == 0x205f || v == 0x3000
}

/// Appends one character to a `String` (`String::push`).
#[verifier::external_body]
pub(crate) fn push_char(s: &mut String, c: char)
    ensures
        final(s)@ == old(s)@.push(c),
{
    s.push(c);
}

/// The characters of `s`, in order.
pub fn chars_of(s: &str) -> (r: Vec<char>)
    ensures
        r@ == s@,
{
    let mut r: Vec<char> = Vec::new();
    broadcast use vstd::string::group_string_axioms;
    for c in it: s.chars()
        invariant
            it.seq() == s@,
            r@ == s@.take(it.index() as int),
    {
        r.push(c);
    }
    assert(s@.take(s@.len() as int) =~= s@);
    r
}


/// `n` copies of `c`.
pub open spec fn repeat_char(c: char, n: nat) -> Seq<char> {
    Seq::new(n, |i: int| c)
}

/// `s` padded on the right with spaces to at least `width` characters, as
/// the `{:<width}` format does it.
pub open spec fn pad_right_seq(s: Seq<char>, width: nat) -> Seq<char> {
    if s.len() < width {
        s + repeat_char(' ', (width - s.len()) as nat)
    } else {
        s
    }
}

/// `s` padded on the left with `fill` to at least `width` characters, as
/// the `{:>width}` format (fill `' '`) and `{:0width}` (fill `'0'`) do it
/// for text without a sign.
pub open spec fn pad_left_seq(s: Seq<char>, fill: char, width: nat) -> Seq<char> {
    if s.len() < width {
        repeat_char(fill, (width - s.len()) as nat) + s
    } else {
        s
    }
}

/// The decimal digit for `d < 10`.
pub open spec fn digit_char(d: nat) -> char {
    if d == 0 { '0' }
    else if d == 1 { '1' }
    else if d == 2 { '2' }
    else if d == 3 { '3' }
    else if d == 4 { '4' }
    else if d == 5 { '5' }
    else if d == 6 { '6' }
    else if d == 7 { '7' }
    else if d == 8 { '8' }
    else { '9' }
}

/// The decimal representation of `n`, without leading zeros.
pub open spec fn decimal_nat(n: nat) -> Seq<char>
    decreases n,
{
    if n < 10 {
        seq![digit_char(n)]
    } else {
        decimal_nat(n / 10).push(digit_char(n % 10))
    }
}

/// The decimal representation of `n`, with a `-` before a negative number,
/// as `Display` writes an integer.
pub open spec fn decimal_int(n: int) -> Seq<char> {
    if n < 0 {
        seq!['-'] + decimal_nat((-n) as nat)
    } else {
        decimal_nat(n as nat)
    }
}

proof fn lemma_trim_start_no_lead(s: Seq<char>)
    ensures
        trim_start_seq(s).len() > 0 ==> !is_white_space(trim_start_seq(s)[0]),
        trim_start_seq(trim_start_seq(s)) == trim_start_seq(s),
    decreases s.len(),
{
    if s.len() > 0 && is_white_space(s[0]) {
        lemma_trim_start_no_lead(s.drop_first());
    }
}

proof fn lemma_trim_end_keeps_start(s: Seq<char>)
    requires
        s.len() > 0 ==> !is_white_space(s[0]),
    ensures
        trim_end_seq(s).len() > 0 ==> !is_white_space(trim_end_seq(s)[0]),
        trim_end_seq(s).len() > 0 ==> !is_white_space(trim_end_seq(s).last()),
        trim_end_seq(s).len() <= s.len(),
        trim_end_seq(s) == s.subrange(0, trim_end_seq(s).len() as int),
    decreases s.len(),
{
    if s.len() > 0 && is_white_space(s.last()) {
        lemma_trim_end_keeps_start(s.drop_last());
        assert(s.drop_last().subrange(0, trim_end_seq(s).len() as int) =~= s.subrange(0, trim_end_seq(s).len() as int));
    } else {
        assert(s.subrange(0, s.len() as int) =~= s);
    }
}

/// Trimming a trimmed text changes nothing.
pub proof fn lemma_trim_idempotent(s: Seq<char>)
    ensures
        trim_seq(trim_seq(s)) == trim_seq(s),
{
    let a = trim_start_seq(s);
    lemma_trim_start_no_lead(s);
    lemma_trim_end_keeps_start(a);
    let t = trim_end_seq(a);
    // t starts and ends with non-white-space (or is empty): both trims leave it alone
    assert(trim_start_seq(t) == t);
    assert(trim_end_seq(t) == t);
}

/// The characters of `s` as a `String`.
pub fn string_from_chars(s: &Vec<char>) -> (r: String)
    ensures
        r@ == s@,
{
    let mut r = String::new();
    let mut i: usize = 0;
    while i < s.len()
        invariant
            i <= s.len(),
            r@ == s@.take(i as int),
        decreases s.len() - i,
    {
        push_char(&mut r, s[i]);
        i = i + 1;
        assert(r@ =~= s@.take(i as int));
    }
    assert(s@.take(s@.len() as int) =~= s@);
    r
}

/// Appends the characters of `t` to `r`.
pub fn append_chars(r: &mut String, t: &Vec<char>)
    ensures
        final(r)@ == old(r)@ + t@,
{
    let mut i: usize = 0;
    while i < t.len()
        invariant
            i <= t.len(),
            r@ == old(r)@ + t@.take(i as int),
        decreases t.len() - i,
    {
        push_char(r, t[i]);
        i = i + 1;
        assert(r@ =~= old(r)@ + t@.take(i as int));
    }
    assert(t@.take(t@.len() as int) =~= t@);
}

/// Whether two strings hold the same characters (`<str as PartialEq>::eq`).
#[verifier::external_body]
pub(crate) fn str_equal(a: &str, b: &str) -> (r: bool)
    ensures
        r == (a@ == b@),
{
    a == b
}

/// What `str::to_lowercase` returns for a text: the Unicode lowercase
/// mapping of each character, which can change the length.
pub uninterp spec fn lowercase_text(s: Seq<char>) -> Seq<char>;

/// Whether every character of a text is ASCII.
pub open spec fn is_ascii_text(s: Seq<char>) -> bool {
    forall|i: int| 0 <= i < s.len() ==> (#[trigger] s[i] as u32) < 128
}

/// The text with the ASCII capitals `A` to `Z` made small.
pub open spec fn ascii_lowercase(s: Seq<char>) -> Seq<char> {
    s.map_values(|c: char| if 'A' <= c <= 'Z' { ((c as u32) + 32) as char } else { c })
}

/// The lowercase of a text: for an ASCII text its ASCII letters made small,
/// else what `str::to_lowercase` gives.
pub open spec fn lowered(s: Seq<char>) -> Seq<char> {
    if is_ascii_text(s) { ascii_lowercase(s) } else { lowercase_text(s) }
}

/// `str::to_lowercase`. The contract names the result and states it for an
/// ASCII text, where the Unicode lowercase mapping makes `A` to `Z` small
/// and leaves every other character alone; the rest of the Unicode mapping
/// is not written out here.
#[verifier::external_body]
pub(crate) fn to_lowercase(s: &str) -> (r: String)
    ensures
        r@ == lowercase_text(s@),
        r@ == lowered(s@),
{
    s.to_lowercase()
}

/// `s` with leading and trailing white space removed.
pub fn trim_chars(s: &Vec<char>) -> (r: Vec<char>)
    ensures
        r@ == trim_seq(s@),
{
    let n = s.len();
    let mut i: usize = 0;
    assert(s@.subrange(0, n as int) =~= s@);
    while i < n && char_is_white_space(s[i])
        invariant
            n == s.len(),
            i <= n,
            trim_start_seq(s@) == trim_start_seq(s@.subrange(i as int, n as int)),
        decreases n - i,
    {
        assert(s@.subrange(i as int, n as int).drop_first() =~= s@.subrange(i + 1, n as int));
        i = i + 1;
    }
    let ghost start = s@.subrange(i as int, n as int);
    assert(trim_start_seq(start) == start);
    let mut j: usize = n;
    while j > i && char_is_white_space(s[j - 1])
        invariant
            n == s.len(),
            i <= j <= n,
            trim_end_seq(start) == trim_end_seq(s@.subrange(i as int, j as int)),
        decreases j,
    {
        assert(s@.subrange(i as int, j as int).drop_last() =~= s@.subrange(i as int, j - 1));
        j = j - 1;
    }
    let mut r: Vec<char> = Vec::new();
    let mut k: usize = i;
    while k < j
        invariant
            n == s.len(),
            i <= k <= j <= n,
            r@ == s@.subrange(i as int, k as int),
        decreases j - k,
    {
        r.push(s[k]);
        k = k + 1;
        assert(r@ =~= s@.subrange(i as int, k as int));
    }
    r
}

/// `trim_chars` on the characters of a string slice.
pub fn trim_str(s: &str) -> (r: Vec<char>)
    ensures
        r@ == trim_seq(s@),
{
    let cs = chars_of(s);
    trim_chars(&cs)
}

/// The digit character for `d`.
pub fn digit_to_char(d: u64) -> (c: char)
    requires
        d < 10,
    ensures
        c == digit_char(d as nat),
{
    if d == 0 { '0' }
    else if d == 1 { '1' }
    else if d == 2 { '2' }
    else if d == 3 { '3' }
    else if d == 4 { '4' }
    else if d == 5 { '5' }
    else if d == 6 { '6' }
    else if d == 7 { '7' }
    else if d == 8 { '8' }
    else { '9' }
}

/// The decimal digits of `n`.
pub fn u64_digits(n: u64) -> (r: Vec<char>)
    ensures
        r@ == decimal_nat(n as nat),
    decreases n,
{
    if n < 10 {
        let mut r: Vec<char> = Vec::new();
        r.push(digit_to_char(n));
        assert(r@ =~= seq![digit_char(n as nat)]);
        r
    } else {
        let mut r = u64_digits(n / 10);
        r.push(digit_to_char(n % 10));
        r
    }
}

/// The decimal text of an `i64`, as `Display` writes it.
pub fn i64_digits(n: i64) -> (r: Vec<char>)
    ensures
        r@ == decimal_int(n as int),
{
    if n < 0 {
        let m: u64 = if n == i64::MIN {
            9223372036854775808u64
        } else {
            (-n) as u64
        };
        let d = u64_digits(m);
        let mut r: Vec<char> = Vec::new();
        r.push('-');
        let mut i: usize = 0;
        while i < d.len()
            invariant
                i <= d.len(),
                r@ == seq!['-'] + d@.take(i as int),
            decreases d.len() - i,
        {
            r.push(d[i]);
            i = i + 1;
            assert(r@ =~= seq!['-'] + d@.take(i as int));
        }
        assert(d@.take(d@.len() as int) =~= d@);
        r
    } else {
        u64_digits(n as u64)
    }
}

/// `s` padded on the right with spaces to `width` characters.
pub fn pad_right(s: &Vec<char>, width: usize) -> (r: Vec<char>)
    ensures
        r@ == pad_right_seq(s@, width as nat),
{
    let mut r: Vec<char> = s.clone();
    assert(r@ =~= s@);
    let mut k: usize = s.len();
    while k < width
        invariant
            r@ == s@ + repeat_char(' ', (k - s.len()) as nat),
            k >= s.len(),
            s.len() >= width ==> k == s.len(),
            s.len() < width ==> k <= width,
        decreases width - k,
    {
        r.push(' ');
        k = k + 1;
        assert(r@ =~= s@ + repeat_char(' ', (k - s.len()) as nat));
    }
    if s.len() >= width {
        assert(r@ =~= s@);
    }
    r
}

/// `s` padded on the left with `fill` to `width` characters.
pub fn pad_left(s: &Vec<char>, fill: char, width: usize) -> (r: Vec<char>)
    ensures
        r@ == pad_left_seq(s@, fill, width as nat),
{
    let mut r: Vec<char> = Vec::new();
    let mut k: usize = s.len();
    while k < width
        invariant
            k >= s.len(),
            s.len() >= width ==> k == s.len(),
            s.len() < width ==> k <= width,
            r@ == repeat_char(fill, (k - s.len()) as nat),
        decreases width - k,
    {
        r.push(fill);
        k = k + 1;
        assert(r@ =~= repeat_char(fill, (k - s.len()) as nat));
    }
    let ghost pre = r@;
    let mut i: usize = 0;
    while i < s.len()
        invariant
            i <= s.len(),
            r@ == pre + s@.take(i as int),
        decreases s.len() - i,
    {
        r.push(s[i]);
        i = i + 1;
        assert(r@ =~= pre + s@.take(i as int));
    }
    assert(s@.take(s@.len() as int) =~= s@);
    if s.len() >= width {
        assert(pre =~= Seq::<char>::empty());
        assert(r@ =~= s@);
    }
    r
}


/// `String::pop`: removes the last character, if any.
#[verifier::external_body]
pub(crate) fn string_pop(s: &mut String) -> (r: Option<char>)
    ensures
        old(s)@.len() == 0 ==> r is None && final(s)@ == old(s)@,
        old(s)@.len() > 0 ==> r == Some(old(s)@.last()) && final(s)@ == old(s)@.drop_last(),
{
    s.pop()
}

/// The number of UTF-8 bytes of a text.
pub open spec fn utf8_len(s: Seq<char>) -> int {
    vstd::utf8::encode_utf8(s).len() as int
}

/// The UTF-8 encoding of a concatenation is the concatenation of the encodings.
pub proof fn lemma_utf8_concat(a: Seq<char>, b: Seq<char>)
    ensures
        vstd::utf8::encode_utf8(a + b) == vstd::utf8::encode_utf8(a) + vstd::utf8::encode_utf8(b),
    decreases a.len(),
{
    if a.len() == 0 {
        assert(a + b =~= b);
        assert(vstd::utf8::encode_utf8(a) =~= Seq::<u8>::empty());
        assert(vstd::utf8::encode_utf8(a) + vstd::utf8::encode_utf8(b) =~= vstd::utf8::encode_utf8(b));
    } else {
        assert((a + b).drop_first() =~= a.drop_first() + b);
        assert((a + b)[0] == a[0]);
        lemma_utf8_concat(a.drop_first(), b);
        assert(vstd::utf8::encode_utf8(a + b) =~= vstd::utf8::encode_scalar(a[0] as u32)
            + (vstd::utf8::encode_utf8(a.drop_first()) + vstd::utf8::encode_utf8(b)));
    }
}

/// Each character takes one to four bytes.
pub proof fn lemma_utf8_char_width(c: char)
    ensures
        1 <= utf8_len(seq![c]) <= 4,
        utf8_len(seq![c]) == vstd::utf8::encode_scalar(c as u32).len(),
{
    broadcast use vstd::utf8::char_is_scalar;
    let s = seq![c];
    assert(s.drop_first() =~= Seq::<char>::empty());
    assert(s[0] == c);
    assert(vstd::utf8::encode_utf8(Seq::<char>::empty()) =~= Seq::<u8>::empty());
    assert(vstd::utf8::encode_utf8(s) =~= vstd::utf8::encode_scalar(c as u32));
}

/// The byte length of a prefix grows with the prefix.
pub proof fn lemma_utf8_prefix_len(s: Seq<char>, k: int)
    requires
        0 <= k < s.len(),
    ensures
        utf8_len(s.take(k)) < utf8_len(s.take(k + 1)),
        utf8_len(s.take(k + 1)) <= utf8_len(s),
{
    assert(s.take(k + 1) =~= s.take(k) + seq![s[k]]);
    lemma_utf8_concat(s.take(k), seq![s[k]]);
    lemma_utf8_char_width(s[k]);
    assert(s =~= s.take(k + 1) + s.skip(k + 1));
    lemma_utf8_concat(s.take(k + 1), s.skip(k + 1));
}

/// A text has at least as many bytes as characters.
pub proof fn lemma_chars_within_bytes(s: Seq<char>)
    ensures
        s.len() <= utf8_len(s),
    decreases s.len(),
{
    if s.len() > 0 {
        let d = s.drop_last();
        lemma_chars_within_bytes(d);
        assert(s =~= d + seq![s.last()]);
        lemma_utf8_concat(d, seq![s.last()]);
        lemma_utf8_char_width(s.last());
    }
}

/// The number of bytes of a character (`char::len_utf8`).
pub fn char_utf8_len(c: char) -> (r: usize)
    ensures
        r == utf8_len(seq![c]),
{
    proof {
        lemma_utf8_char_width(c);
        broadcast use vstd::utf8::char_is_scalar;
    }
    let v = c as u32;
    if v <= 0x7f {
        1
    } else if v <= 0x7ff {
        2
    } else if v <= 0xffff {
        3
    } else {
        4
    }
}

/// Whether byte position `idx` of the text lies before its `k`-th character.
pub open spec fn is_char_start(s: Seq<char>, idx: int, k: int) -> bool {
    0 <= k <= s.len() && idx == utf8_len(s.take(k))
}

/// `String::insert`: inserts `ch` at byte position `idx`, which has to lie
/// on a character boundary (else the call panics): before the character
/// that starts there, or at the end.
#[verifier::external_body]
pub(crate) fn string_insert(s: &mut String, idx: usize, ch: char)
    requires
        exists|k: int| is_char_start(old(s)@, idx as int, k),
    ensures
        forall|k: int|
            #[trigger] is_char_start(old(s)@, idx as int, k) ==> final(s)@ == old(s)@.take(k) + seq![ch]
                + old(s)@.skip(k),
{
    s.insert(idx, ch);
}

/// `String::remove`: removes and returns the character that starts at byte
/// position `idx`, which has to lie on a character boundary before the end
/// (else the call panics).
#[verifier::external_body]
pub(crate) fn string_remove(s: &mut String, idx: usize) -> (r: char)
    requires
        exists|k: int| is_char_start(old(s)@, idx as int, k) && k < old(s)@.len(),
    ensures
        forall|k: int|
            #[trigger] is_char_start(old(s)@, idx as int, k) && k < old(s)@.len() ==> final(s)@ == old(
                s,
            )@.take(k) + old(s)@.skip(k + 1) && r == old(s)@[k],
{
    s.remove(idx)
}

} // verus!
