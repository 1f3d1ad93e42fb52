//! Text helpers: character-level views of strings, substring search,
//! trimming, decimal formatting and parsing.

use vstd::prelude::*;

verus! {

/// What `str::to_lowercase` returns for a string that holds a character
/// outside ASCII.
pub uninterp spec fn lowercase_of(s: Seq<char>) -> Seq<char>;

/// What `str::to_uppercase` returns for a string that holds a character
/// outside ASCII.
pub uninterp spec fn uppercase_of(s: Seq<char>) -> Seq<char>;

/// `c` is an ASCII character.
pub open spec fn is_ascii_char(c: char) -> bool {
    c <= '\u{7f}'
}

/// Every character of `s` is ASCII.
pub open spec fn is_ascii_text(s: Seq<char>) -> bool {
    forall|i: int| 0 <= i < s.len() ==> is_ascii_char(#[trigger] s[i])
}

/// `c` with an ASCII capital letter turned into its small letter.
pub open spec fn ascii_lower_char(c: char) -> char {
    if 'A' <= c && c <= 'Z' {
        ((c as u32) + 32) as char
    } else {
        c
    }
}

/// `c` with an ASCII small letter turned into its capital letter.
pub open spec fn ascii_upper_char(c: char) -> char {
    if 'a' <= c && c <= 'z' {
        ((c as u32) - 32) as char
    } else {
        c
    }
}

/// `s` with its ASCII letters in lower case (as `str::to_ascii_lowercase`).
pub open spec fn ascii_lower(s: Seq<char>) -> Seq<char> {
    s.map_values(|c: char| ascii_lower_char(c))
}

/// `s` with its ASCII letters in upper case (as `str::to_ascii_uppercase`).
pub open spec fn ascii_upper(s: Seq<char>) -> Seq<char> {
    s.map_values(|c: char| ascii_upper_char(c))
}

/// The lower-case form of a text, as `str::to_lowercase` gives it: on ASCII
/// text its ASCII letters in lower case, on other text the Unicode mapping.
pub open spec fn lower_text(s: Seq<char>) -> Seq<char> {
    if is_ascii_text(s) {
        ascii_lower(s)
    } else {
        lowercase_of(s)
    }
}

/// The upper-case form of a text, as `str::to_uppercase` gives it: on ASCII
/// text its ASCII letters in upper case, on other text the Unicode mapping.
pub open spec fn upper_text(s: Seq<char>) -> Seq<char> {
    if is_ascii_text(s) {
        ascii_upper(s)
    } else {
        uppercase_of(s)
    }
}

/// Calls `str::to_lowercase`. On ASCII text it turns `A` to `Z` into `a` to
/// `z` and leaves every other character as it is: the documentation of
/// `char::to_ascii_lowercase` points to it for lower-casing ASCII together
/// with the rest. On other text its result is named by `lowercase_of`.
#[verifier::external_body]
pub(crate) fn to_lower(s: &str) -> (r: String)
    ensures
        is_ascii_text(s@) ==> r@ == ascii_lower(s@),
        !is_ascii_text(s@) ==> r@ == lowercase_of(s@),
{
    s.to_lowercase()
}

/// Calls `str::to_uppercase`. On ASCII text it turns `a` to `z` into `A` to
/// `Z` and leaves every other character as it is: the documentation of
/// `char::to_ascii_uppercase` points to it for upper-casing ASCII together
/// with the rest. On other text its result is named by `uppercase_of`.
#[verifier::external_body]
pub(crate) fn to_upper(s: &str) -> (r: String)
    ensures
        is_ascii_text(s@) ==> r@ == ascii_upper(s@),
        !is_ascii_text(s@) ==> r@ == uppercase_of(s@),
{
    s.to_uppercase()
}

/// Calls `String::push`, which appends one character to the end of the string.
#[verifier::external_body]
pub(crate) fn push_char(s: &mut String, c: char)
    ensures
        final(s)@ == old(s)@.push(c),
{
    s.push(c)
}

/// The characters of a string, one by one.
pub fn chars_of(s: &str) -> (v: Vec<char>)
    ensures
        v@ == s@,
{
    let n = s.unicode_len();
    let mut v: Vec<char> = Vec::new();
    let mut i: usize = 0;
    while i < n
        invariant
            n == s@.len(),
            i <= n,
            v@ == s@.subrange(0, i as int),
        decreases n - i,
    {
        let c = s.get_char(i);
        v.push(c);
        i = i + 1;
    }
    v
}

/// A fresh `String` with the characters of `s`.
pub fn owned(s: &str) -> (r: String)
    ensures
        r@ == s@,
{
    s.to_owned()
}

/// A `String` made of the given characters.
pub fn string_from_chars(cs: &Vec<char>) -> (r: String)
    ensures
        r@ == cs@,
{
    let mut r = String::new();
    let mut i: usize = 0;
    while i < cs.len()
        invariant
            i <= cs.len(),
            r@ == cs@.subrange(0, i as int),
        decreases cs.len() - i,
    {
        push_char(&mut r, cs[i]);
        i = i + 1;
    }
    r
}

/// Appends the characters of `t` to `s`.
pub fn push_text(s: &mut String, t: &str)
    ensures
        final(s)@ == old(s)@ + t@,
{
    let cs = chars_of(t);
    let mut i: usize = 0;
    while i < cs.len()
        invariant
            i <= cs.len(),
            cs@ == t@,
            s@ == old(s)@ + t@.subrange(0, i as int),
        decreases cs.len() - i,
    {
        push_char(s, cs[i]);
        i = i + 1;
        assert(t@.subrange(0, i as int) =~= t@.subrange(0, (i - 1) as int).push(cs@[i - 1]));
    }
    assert(t@.subrange(0, t@.len() as int) =~= t@);
}

/// Whether two strings have the same characters.
pub fn same_text(a: &str, b: &str) -> (r: bool)
    ensures
        r == (a@ == b@),
{
    let x = owned(a);
    let y = owned(b);
    x == y
}


/// `t` occurs in `s` starting at index `i`.
pub open spec fn occurs_at(s: Seq<char>, t: Seq<char>, i: int) -> bool {
    0 <= i && i + t.len() <= s.len() && s.subrange(i, i + t.len()) == t
}

/// `t` occurs somewhere in `s` (as `str::contains` with a string pattern).
pub open spec fn has_sub(s: Seq<char>, t: Seq<char>) -> bool {
    exists|i: int| occurs_at(s, t, i)
}

/// `c` does not occur in `s`.
pub open spec fn lacks_char(s: Seq<char>, c: char) -> bool {
    forall|i: int| 0 <= i < s.len() ==> s[i] != c
}

/// A text that lacks a character of `t` does not contain `t`.
pub proof fn lemma_lacks_char_no_sub(s: Seq<char>, t: Seq<char>, c: char, k: int)
    requires
        lacks_char(s, c),
        0 <= k < t.len(),
        t[k] == c,
    ensures
        !has_sub(s, t),
{
    if has_sub(s, t) {
        let i = choose|i: int| occurs_at(s, t, i);
        assert(s.subrange(i, i + t.len())[k] == s[i + k]);
    }
}

/// No `c0` in `s` is directly followed by `c1`.
pub open spec fn lacks_pair(s: Seq<char>, c0: char, c1: char) -> bool {
    forall|i: int| 0 <= i && i + 1 < s.len() ==> !(#[trigger] s[i] == c0 && s[i + 1] == c1)
}

/// A text in which the first two characters of `t` never stand together
/// does not contain `t`.
pub proof fn lemma_lacks_pair_no_sub(s: Seq<char>, t: Seq<char>)
    requires
        t.len() >= 2,
        lacks_pair(s, t[0], t[1]),
    ensures
        !has_sub(s, t),
{
    if has_sub(s, t) {
        let i = choose|i: int| occurs_at(s, t, i);
        assert(s.subrange(i, i + t.len())[0] == s[i]);
        assert(s.subrange(i, i + t.len())[1] == s[i + 1]);
    }
}

/// Joining two texts that lack `c` gives a text that lacks it.
pub proof fn lemma_lacks_char_concat(a: Seq<char>, b: Seq<char>, c: char)
    requires
        lacks_char(a, c),
        lacks_char(b, c),
    ensures
        lacks_char(a + b, c),
{
    assert forall|i: int| 0 <= i < (a + b).len() implies (a + b)[i] != c by {
        if i >= a.len() {
            assert((a + b)[i] == b[i - a.len()]);
        }
    }
}

/// What occurs in a part of a text occurs in the whole.
pub proof fn lemma_sub_concat(a: Seq<char>, b: Seq<char>, t: Seq<char>)
    ensures
        has_sub(a, t) ==> has_sub(a + b, t),
        has_sub(b, t) ==> has_sub(a + b, t),
{
    if has_sub(a, t) {
        let i = choose|i: int| occurs_at(a, t, i);
        assert((a + b).subrange(i, i + t.len()) =~= a.subrange(i, i + t.len()));
        assert(occurs_at(a + b, t, i));
    }
    if has_sub(b, t) {
        let i = choose|i: int| occurs_at(b, t, i);
        let j = i + a.len();
        assert((a + b).subrange(j, j + t.len()) =~= b.subrange(i, i + t.len()));
        assert(occurs_at(a + b, t, j));
    }
}

/// `s` starts with `t`.
pub open spec fn has_prefix(s: Seq<char>, t: Seq<char>) -> bool {
    t.len() <= s.len() && s.subrange(0, t.len() as int) == t
}

fn occurs_at_exec(s: &Vec<char>, t: &Vec<char>, i: usize) -> (r: bool)
    requires
        i + t.len() <= s.len(),
    ensures
        r == occurs_at(s@, t@, i as int),
{
    let mut j: usize = 0;
    while j < t.len()
        invariant
            i + t.len() <= s.len(),
            j <= t.len(),
            forall|k: int| 0 <= k < j ==> s@[i + k] == t@[k],
        decreases t.len() - j,
    {
        if s[i + j] != t[j] {
            assert(s@.subrange(i as int, i + t.len())[j as int] != t@[j as int]);
            return false;
        }
        j = j + 1;
    }
    assert(s@.subrange(i as int, i + t.len()) =~= t@);
    true
}

/// Whether `t` occurs in `s`.
pub fn contains_text(s: &str, t: &str) -> (r: bool)
    ensures
        r == has_sub(s@, t@),
{
    let sv = chars_of(s);
    let tv = chars_of(t);
    if tv.len() > sv.len() {
        assert(!has_sub(s@, t@));
        return false;
    }
    let mut i: usize = 0;
    let last = sv.len() - tv.len();
    loop
        invariant
            sv@ == s@,
            tv@ == t@,
            last == sv.len() - tv.len(),
            i <= last,
            forall|k: int| 0 <= k < i ==> !occurs_at(s@, t@, k),
        ensures
            forall|k: int| 0 <= k <= last ==> !occurs_at(s@, t@, k),
        decreases last - i,
    {
        if occurs_at_exec(&sv, &tv, i) {
            return true;
        }
        if i == last {
            break;
        }
        i = i + 1;
    }
    assert forall|k: int| !occurs_at(s@, t@, k) by {
        if 0 <= k && k + t@.len() <= s@.len() {
            assert(k <= last);
        }
    }
    false
}

/// Whether `s` starts with `t`.
pub fn starts_with_text(s: &str, t: &str) -> (r: bool)
    ensures
        r == has_prefix(s@, t@),
{
    let sv = chars_of(s);
    let tv = chars_of(t);
    if tv.len() > sv.len() {
        return false;
    }
    let r = occurs_at_exec(&sv, &tv, 0);
    r
}

/// The characters that `char::is_whitespace` accepts (Unicode White_Space).
pub open spec fn is_space(c: char) -> bool {
    let u = c as u32;
    (0x09 <= u <= 0x0D) || u == 0x20 || u == 0x85 || u == 0xA0 || u == 0x1680
        || (0x2000 <= u <= 0x200A) || u == 0x2028 || u == 0x2029 || u == 0x202F
        || u == 0x205F || u == 0x3000
}

fn is_space_exec(c: char) -> (r: bool)
    ensures
        r == is_space(c),
{
    let u = c as u32;
    (0x09 <= u && u <= 0x0D) || u == 0x20 || u == 0x85 || u == 0xA0 || u == 0x1680
        || (0x2000 <= u && u <= 0x200A) || u == 0x2028 || u == 0x2029 || u == 0x202F
        || u == 0x205F || u == 0x3000
}

/// Number of leading whitespace characters of `s`.
pub open spec fn lead_space(s: Seq<char>) -> nat
    decreases s.len(),
{
    if s.len() > 0 && is_space(s[0]) {
        1 + lead_space(s.drop_first())
    } else {
        0
    }
}

/// Number of trailing whitespace characters of `s`.
pub open spec fn trail_space(s: Seq<char>) -> nat
    decreases s.len(),
{
    if s.len() > 0 && is_space(s.last()) {
        1 + trail_space(s.drop_last())
    } else {
        0
    }
}

/// `s` with whitespace removed at both ends, as `str::trim` does.
pub open spec fn trimmed(s: Seq<char>) -> Seq<char> {
    let a = lead_space(s);
    let rest = s.subrange(a as int, s.len() as int);
    rest.subrange(0, rest.len() - trail_space(rest))
}

proof fn lemma_lead_space_from(s: Seq<char>, i: int)
    requires
        0 <= i <= s.len(),
        forall|k: int| 0 <= k < i ==> is_space(#[trigger] s[k]),
        i == s.len() || !is_space(s[i]),
    ensures
        lead_space(s) == i,
    decreases s.len(),
{
    if i > 0 {
        assert(is_space(s[0]));
        assert forall|k: int| 0 <= k < i - 1 implies is_space(#[trigger] s.drop_first()[k]) by {
            assert(s.drop_first()[k] == s[k + 1]);
        }
        if i < s.len() {
            assert(s.drop_first()[i - 1] == s[i]);
        }
        lemma_lead_space_from(s.drop_first(), i - 1);
    }
}

proof fn lemma_trail_space_from(s: Seq<char>, j: int)
    requires
        0 <= j <= s.len(),
        forall|k: int| j <= k < s.len() ==> is_space(#[trigger] s[k]),
        j == 0 || !is_space(s[j - 1]),
    ensures
        trail_space(s) == s.len() - j,
    decreases s.len(),
{
    if j < s.len() {
        assert(is_space(s.last()));
        assert forall|k: int| j <= k < s.drop_last().len() implies is_space(#[trigger] s.drop_last()[k]) by {
            assert(s.drop_last()[k] == s[k]);
        }
        if j > 0 {
            assert(s.drop_last()[j - 1] == s[j - 1]);
        }
        lemma_trail_space_from(s.drop_last(), j);
    }
}

/// The characters of `s` with whitespace removed at both ends.
pub fn trim_chars(s: &Vec<char>) -> (r: Vec<char>)
    ensures
        r@ == trimmed(s@),
{
    let n = s.len();
    let mut i: usize = 0;
    while i < n && is_space_exec(s[i])
        invariant
            n == s.len(),
            i <= n,
            forall|k: int| 0 <= k < i ==> is_space(#[trigger] s@[k]),
        decreases n - i,
    {
        i = i + 1;
    }
    proof {
        lemma_lead_space_from(s@, i as int);
    }
    let mut j: usize = n;
    while j > i && is_space_exec(s[j - 1])
        invariant
            n == s.len(),
            i <= j <= n,
            forall|k: int| j <= k < n ==> is_space(#[trigger] s@[k]),
        decreases j - i,
    {
        j = j - 1;
    }
    let ghost rest = s@.subrange(i as int, n as int);
    proof {
        assert forall|k: int| (j - i) <= k < rest.len() implies is_space(#[trigger] rest[k]) by {
            assert(rest[k] == s@[i + k]);
        }
        if j > i {
            assert(rest[j - i - 1] == s@[j - 1]);
        }
        lemma_trail_space_from(rest, (j - i) as int);
    }
    let mut r: Vec<char> = Vec::new();
    let mut k: usize = i;
    while k < j
        invariant
            i <= k <= j <= n,
            n == s.len(),
            r@ == s@.subrange(i as int, k as int),
        decreases j - k,
    {
        r.push(s[k]);
        k = k + 1;
    }
    assert(r@ =~= trimmed(s@));
    r
}

/// The string `s` with whitespace removed at both ends.
pub fn trim_text(s: &str) -> (r: String)
    ensures
        r@ == trimmed(s@),
{
    let cs = chars_of(s);
    let t = trim_chars(&cs);
    string_from_chars(&t)
}


/// The character of a decimal digit `d` (0 to 9).
pub open spec fn digit_char(d: int) -> char {
    ((d + 48) as u8) as char
}

/// Whether `c` is an ASCII decimal digit.
pub open spec fn is_digit(c: char) -> bool {
    '0' <= c && c <= '9'
}

/// The decimal representation of `n`, as `Display` prints an unsigned integer.
pub open spec fn decimal(n: nat) -> Seq<char>
    decreases n,
{
    if n < 10 {
        seq![digit_char(n as int)]
    } else {
        decimal(n / 10).push(digit_char((n % 10) as int))
    }
}

fn digit_of(d: u64) -> (c: char)
    requires
        d < 10,
    ensures
        c == digit_char(d as int),
{
    let b: u8 = d as u8;
    (b + 48u8) as char
}

/// The decimal representation of `n`.
pub fn decimal_string(n: u64) -> (r: String)
    ensures
        r@ == decimal(n as nat),
{
    let mut acc: Vec<char> = Vec::new();
    let mut m: u64 = n;
    while m >= 10
        invariant
            decimal(n as nat) == decimal(m as nat) + acc@,
        decreases m,
    {
        let c = digit_of(m % 10);
        proof {
            assert(decimal(m as nat) == decimal((m / 10) as nat).push(c));
            assert(decimal((m / 10) as nat) + seq![c].add(acc@) =~= decimal(m as nat) + acc@);
        }
        acc.insert(0, c);
        m = m / 10;
    }
    let c = digit_of(m);
    acc.insert(0, c);
    assert(decimal(m as nat) == seq![c]);
    string_from_chars(&acc)
}

/// Appends the decimal representation of `n` to `s`.
pub fn push_decimal(s: &mut String, n: u64)
    ensures
        final(s)@ == old(s)@ + decimal(n as nat),
{
    let d = decimal_string(n);
    push_text(s, d.as_str());
}

/// A decimal representation is not empty and holds digits only.
pub proof fn lemma_decimal_digits(n: nat)
    ensures
        decimal(n).len() > 0,
        all_digits(decimal(n)),
    decreases n,
{
    if n >= 10 {
        lemma_decimal_digits(n / 10);
        let d = (n % 10) as int;
        assert(is_digit(digit_char(d)));
        assert forall|i: int| 0 <= i < decimal(n).len() implies is_digit(#[trigger] decimal(n)[i]) by {
            if i < decimal(n / 10).len() {
                assert(decimal(n)[i] == decimal(n / 10)[i]);
            }
        }
    } else {
        assert(is_digit(digit_char(n as int)));
    }
}

/// A decimal representation holds no character but digits.
pub proof fn lemma_decimal_lacks(n: nat, c: char)
    requires
        !is_digit(c),
    ensures
        lacks_char(decimal(n), c),
{
    lemma_decimal_digits(n);
}

/// A decimal representation is ASCII text.
pub proof fn lemma_decimal_ascii(n: nat)
    ensures
        is_ascii_text(decimal(n)),
{
    lemma_decimal_digits(n);
    assert forall|i: int| 0 <= i < decimal(n).len() implies is_ascii_char(#[trigger] decimal(n)[i]) by {
        assert(is_digit(decimal(n)[i]));
    }
}

/// Joining two ASCII texts gives ASCII text.
pub proof fn lemma_ascii_concat(a: Seq<char>, b: Seq<char>)
    requires
        is_ascii_text(a),
        is_ascii_text(b),
    ensures
        is_ascii_text(a + b),
{
    assert forall|i: int| 0 <= i < (a + b).len() implies is_ascii_char(#[trigger] (a + b)[i]) by {
        if i >= a.len() {
            assert((a + b)[i] == b[i - a.len()]);
        } else {
            assert((a + b)[i] == a[i]);
        }
    }
}

/// Lower-casing ASCII text keeps it ASCII, and upper-casing it afterwards
/// gives what upper-casing it directly gives.
pub proof fn lemma_ascii_lower_then_upper(s: Seq<char>)
    requires
        is_ascii_text(s),
    ensures
        is_ascii_text(ascii_lower(s)),
        ascii_upper(ascii_lower(s)) == ascii_upper(s),
{
    assert forall|i: int| 0 <= i < ascii_lower(s).len() implies is_ascii_char(
        #[trigger] ascii_lower(s)[i],
    ) by {
        assert(is_ascii_char(s[i]));
    }
    assert(ascii_upper(ascii_lower(s)) =~= ascii_upper(s));
}

/// Upper-casing ASCII text keeps it ASCII, and lower-casing it afterwards
/// gives what lower-casing it directly gives.
pub proof fn lemma_ascii_upper_then_lower(s: Seq<char>)
    requires
        is_ascii_text(s),
    ensures
        is_ascii_text(ascii_upper(s)),
        ascii_lower(ascii_upper(s)) == ascii_lower(s),
{
    assert forall|i: int| 0 <= i < ascii_upper(s).len() implies is_ascii_char(
        #[trigger] ascii_upper(s)[i],
    ) by {
        assert(is_ascii_char(s[i]));
    }
    assert(ascii_lower(ascii_upper(s)) =~= ascii_lower(s));
}

/// The value of a sequence of decimal digits.
pub open spec fn digits_value(s: Seq<char>) -> nat
    decreases s.len(),
{
    if s.len() == 0 {
        0
    } else {
        digits_value(s.drop_last()) * 10 + ((s.last() as int - 48) as nat)
    }
}

/// Every character of `s` is a decimal digit.
pub open spec fn all_digits(s: Seq<char>) -> bool {
    forall|i: int| 0 <= i < s.len() ==> is_digit(#[trigger] s[i])
}

/// `s` without one leading `+`, if it has one.
pub open spec fn unsigned_body(s: Seq<char>) -> Seq<char> {
    if s.len() > 0 && s[0] == '+' {
        s.drop_first()
    } else {
        s
    }
}

/// What `str::parse` gives for an unsigned integer type whose largest value is
/// `max`: an optional `+`, then one or more decimal digits whose value is at most `max`.
pub open spec fn parse_unsigned(s: Seq<char>, max: nat) -> Option<nat> {
    let b = unsigned_body(s);
    if b.len() > 0 && all_digits(b) && digits_value(b) <= max {
        Some(digits_value(b))
    } else {
        None
    }
}

proof fn lemma_digits_value_grows(s: Seq<char>, k: int)
    requires
        0 <= k <= s.len(),
        all_digits(s),
    ensures
        digits_value(s.subrange(0, k)) <= digits_value(s),
    decreases s.len() - k,
{
    if k < s.len() {
        lemma_digits_value_grows(s, k + 1);
        let p = s.subrange(0, k + 1);
        assert(p.drop_last() =~= s.subrange(0, k));
        assert(is_digit(s[k]));
    } else {
        assert(s.subrange(0, k) =~= s);
    }
}

/// Parses the characters `cs` as an unsigned integer no larger than `max`.
pub fn parse_unsigned_chars(cs: &Vec<char>, max: u64) -> (r: Option<u64>)
    ensures
        r matches Some(v) ==> parse_unsigned(cs@, max as nat) == Some(v as nat),
        r is None ==> parse_unsigned(cs@, max as nat) is None,
{
    let start: usize = if cs.len() > 0 && cs[0] == '+' { 1 } else { 0 };
    let ghost b = unsigned_body(cs@);
    assert(b =~= cs@.subrange(start as int, cs@.len() as int));
    if start >= cs.len() {
        return None;
    }
    let mut acc: u64 = 0;
    let mut i: usize = start;
    while i < cs.len()
        invariant
            start <= i <= cs.len(),
            b == cs@.subrange(start as int, cs@.len() as int),
            b == unsigned_body(cs@),
            acc <= max,
            all_digits(b.subrange(0, i - start)),
            acc as nat == digits_value(b.subrange(0, i - start)),
        decreases cs.len() - i,
    {
        let c = cs[i];
        let ghost p = b.subrange(0, i + 1 - start);
        assert(p.drop_last() =~= b.subrange(0, i - start));
        assert(p.last() == c);
        assert(b[i - start] == c);
        if !('0' <= c && c <= '9') {
            assert(!is_digit(b[i - start]));
            assert(!all_digits(b));
            return None;
        }
        let d: u64 = (c as u64) - 48;
        if d > max || acc > (max - d) / 10 {
            proof {
                assert(digits_value(p) == acc * 10 + d);
                if d <= max {
                    assert(digits_value(p) > max) by (nonlinear_arith)
                        requires
                            acc > (max - d) / 10,
                            digits_value(p) == acc * 10 + d,
                            d <= max,
                    ;
                }
                if all_digits(b) {
                    lemma_digits_value_grows(b, i + 1 - start);
                }
            }
            return None;
        }
        proof {
            assert(acc * 10 + d <= max) by (nonlinear_arith)
                requires
                    acc <= (max - d) / 10,
                    d <= 9,
            ;
        }
        acc = acc * 10 + d;
        i = i + 1;
        assert(all_digits(b.subrange(0, i - start)));
    }
    assert(b.subrange(0, b.len() as int) =~= b);
    Some(acc)
}


/// The pieces of `s` between occurrences of `sep`, as `str::split` with a
/// character pattern gives them (always at least one piece).
pub open spec fn split_char(s: Seq<char>, sep: char) -> Seq<Seq<char>>
    decreases s.len(),
{
    if s.len() == 0 {
        seq![Seq::<char>::empty()]
    } else {
        let p = split_char(s.drop_last(), sep);
        if s.last() == sep {
            p.push(Seq::<char>::empty())
        } else {
            p.update(p.len() - 1, p.last().push(s.last()))
        }
    }
}

pub proof fn lemma_split_char_nonempty(s: Seq<char>, sep: char)
    ensures
        split_char(s, sep).len() >= 1,
    decreases s.len(),
{
    if s.len() > 0 {
        lemma_split_char_nonempty(s.drop_last(), sep);
    }
}

/// Split the characters `cs` at every `sep`.
pub fn split_chars(cs: &Vec<char>, sep: char) -> (r: Vec<Vec<char>>)
    ensures
        r@.len() == split_char(cs@, sep).len(),
        forall|i: int| 0 <= i < r@.len() ==> #[trigger] r@[i]@ == split_char(cs@, sep)[i],
{
    let mut pieces: Vec<Vec<char>> = Vec::new();
    let mut cur: Vec<char> = Vec::new();
    let mut i: usize = 0;
    while i < cs.len()
        invariant
            i <= cs.len(),
            pieces@.len() + 1 == split_char(cs@.subrange(0, i as int), sep).len(),
            forall|k: int| 0 <= k < pieces@.len() ==> #[trigger] pieces@[k]@ == split_char(
                cs@.subrange(0, i as int),
                sep,
            )[k],
            cur@ == split_char(cs@.subrange(0, i as int), sep).last(),
        decreases cs.len() - i,
    {
        let ghost prev = cs@.subrange(0, i as int);
        proof {
            lemma_split_char_nonempty(prev, sep);
            assert(cs@.subrange(0, i + 1).drop_last() =~= prev);
        }
        let c = cs[i];
        if c == sep {
            pieces.push(cur);
            cur = Vec::new();
        } else {
            cur.push(c);
        }
        i = i + 1;
    }
    pieces.push(cur);
    assert(cs@.subrange(0, cs@.len() as int) =~= cs@);
    pieces
}


/// Split at every `", "` (comma followed by a space). The separator cannot
/// overlap itself, so reading it from the end gives the same pieces as
/// reading it from the start.
pub open spec fn split_comma_space(s: Seq<char>) -> Seq<Seq<char>>
    decreases s.len(),
{
    if s.len() == 0 {
        seq![Seq::<char>::empty()]
    } else if s.len() >= 2 && s[s.len() - 2] == ',' && s[s.len() - 1] == ' ' {
        split_comma_space(s.subrange(0, s.len() - 2)).push(Seq::<char>::empty())
    } else {
        let p = split_comma_space(s.drop_last());
        p.update(p.len() - 1, p.last().push(s.last()))
    }
}

proof fn lemma_split_comma_space_nonempty(s: Seq<char>)
    ensures
        split_comma_space(s).len() >= 1,
    decreases s.len(),
{
    if s.len() >= 2 && s[s.len() - 2] == ',' && s[s.len() - 1] == ' ' {
        lemma_split_comma_space_nonempty(s.subrange(0, s.len() - 2));
    } else if s.len() > 0 {
        lemma_split_comma_space_nonempty(s.drop_last());
    }
}

/// Split the characters `cs` at every `", "`.
pub fn split_at_comma_space(cs: &Vec<char>) -> (r: Vec<Vec<char>>)
    ensures
        r@.len() == split_comma_space(cs@).len(),
        forall|i: int| 0 <= i < r@.len() ==> #[trigger] r@[i]@ == split_comma_space(cs@)[i],
{
    let mut pieces: Vec<Vec<char>> = Vec::new();
    let mut cur: Vec<char> = Vec::new();
    let mut i: usize = 0;
    while i < cs.len()
        invariant
            i <= cs.len(),
            pieces@.len() + 1 == split_comma_space(cs@.subrange(0, i as int)).len(),
            forall|k: int| 0 <= k < pieces@.len() ==> #[trigger] pieces@[k]@ == split_comma_space(
                cs@.subrange(0, i as int),
            )[k],
            cur@ == split_comma_space(cs@.subrange(0, i as int)).last(),
        decreases cs.len() - i,
    {
        let ghost prev = cs@.subrange(0, i as int);
        let ghost next = cs@.subrange(0, i + 1);
        proof {
            lemma_split_comma_space_nonempty(prev);
            assert(next.drop_last() =~= prev);
        }
        let c = cs[i];
        if c == ' ' && i >= 1 && cs[i - 1] == ',' {
            let ghost before = cs@.subrange(0, i - 1);
            proof {
                assert(next.subrange(0, next.len() - 2) =~= before);
                assert(prev.drop_last() =~= before);
                lemma_split_comma_space_nonempty(before);
                assert(!(prev.len() >= 2 && prev[prev.len() - 2] == ',' && prev[prev.len() - 1]
                    == ' '));
            }
            cur.pop();
            let ghost bp = split_comma_space(before);
            assert(cur@ == bp.last());
            pieces.push(cur);
            cur = Vec::new();
            proof {
                assert forall|k: int| 0 <= k < pieces@.len() implies #[trigger] pieces@[k]@
                    == split_comma_space(next)[k] by {
                    if k < pieces@.len() - 1 {
                        assert(pieces@[k]@ == split_comma_space(prev)[k]);
                    }
                }
            }
        } else {
            cur.push(c);
        }
        i = i + 1;
    }
    pieces.push(cur);
    assert(cs@.subrange(0, cs@.len() as int) =~= cs@);
    pieces
}


/// The number a text holds once trimmed, or 0 where it holds none.
pub open spec fn number_or_zero(s: Seq<char>, max: nat) -> nat {
    match parse_unsigned(trimmed(s), max) {
        Some(v) => v,
        None => 0,
    }
}

/// Read the number in `cs` (surrounding spaces allowed), or 0 where there is none.
pub fn parse_or_zero(cs: &Vec<char>, max: u64) -> (r: u64)
    ensures
        r == number_or_zero(cs@, max as nat),
{
    let t = trim_chars(cs);
    match parse_unsigned_chars(&t, max) {
        Some(v) => v,
        None => 0,
    }
}

} // verus!
