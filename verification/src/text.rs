//! Character-level text operations over `String`/`&str`, specified over
//! their `Seq<char>` views.

use vstd::prelude::*;
use vstd::utf8::{decode_utf8, valid_utf8};

verus! {

/// Appends one character to a string.
///
/// Trusted: calls `std::string::String::push`, whose documentation says it
/// appends the given `char` to the end of the string.
#[verifier::external_body]
pub(crate) fn push_char(s: &mut String, c: char)
    ensures
        final(s)@ == old(s)@.push(c),
{
    s.push(c);
}

/// Unicode `White_Space` property, as used by `char::is_whitespace` and
/// therefore by `str::trim`.
pub open spec fn is_unicode_whitespace(c: char) -> bool {
    let v = c as u32;
    ||| 0x09 <= v <= 0x0d
    ||| v == 0x20
    ||| v == 0x85
    ||| v == 0xa0
    ||| v == 0x1680
    ||| 0x2000 <= v <= 0x200a
    ||| v == 0x2028
    ||| v == 0x2029
    ||| v == 0x202f
    ||| v == 0x205f
    ||| v == 0x3000
}

/// Executable whitespace test.
pub fn is_whitespace(c: char) -> (r: bool)
    ensures
        r == is_unicode_whitespace(c),
{
    let v = c as u32;
    (0x09 <= v && v <= 0x0d) || v == 0x20 || v == 0x85 || v == 0xa0 || v == 0x1680 || (0x2000
        <= v && v <= 0x200a) || v == 0x2028 || v == 0x2029 || v == 0x202f || v == 0x205f || v
        == 0x3000
}

/// Index of the first non-whitespace character (or the length if none).
pub open spec fn trim_start_index(s: Seq<char>) -> int
    decreases s.len(),
{
    if s.len() == 0 {
        0
    } else if is_unicode_whitespace(s[0]) {
        1 + trim_start_index(s.drop_first())
    } else {
        0
    }
}

/// Index one past the last non-whitespace character (or 0 if none).
pub open spec fn trim_end_index(s: Seq<char>) -> int
    decreases s.len(),
{
    if s.len() == 0 {
        0
    } else if is_unicode_whitespace(s.last()) {
        trim_end_index(s.drop_last())
    } else {
        s.len() as int
    }
}

/// `s` with leading and trailing whitespace removed, as `str::trim` does.
pub open spec fn trimmed(s: Seq<char>) -> Seq<char> {
    let a = trim_start_index(s);
    let b = trim_end_index(s);
    if a < b {
        s.subrange(a, b)
    } else {
        Seq::empty()
    }
}


proof fn lemma_trim_start_index(s: Seq<char>, i: int)
    requires
        0 <= i <= s.len(),
        forall|k: int| 0 <= k < i ==> is_unicode_whitespace(#[trigger] s[k]),
        i == s.len() || !is_unicode_whitespace(s[i]),
    ensures
        trim_start_index(s) == i,
    decreases i,
{
    if i > 0 {
        let t = s.drop_first();
        assert forall|k: int| 0 <= k < i - 1 implies is_unicode_whitespace(#[trigger] t[k]) by {
            assert(t[k] == s[k + 1]);
        }
        if i < s.len() {
            assert(t[i - 1] == s[i]);
        }
        lemma_trim_start_index(t, i - 1);
    }
}

proof fn lemma_trim_end_index(s: Seq<char>, j: int)
    requires
        0 <= j <= s.len(),
        forall|k: int| j <= k < s.len() ==> is_unicode_whitespace(#[trigger] s[k]),
        j == 0 || !is_unicode_whitespace(s[j - 1]),
    ensures
        trim_end_index(s) == j,
    decreases s.len(),
{
    if s.len() > j {
        let t = s.drop_last();
        assert(is_unicode_whitespace(s[s.len() - 1]));
        assert forall|k: int| j <= k < t.len() implies is_unicode_whitespace(#[trigger] t[k]) by {
            assert(t[k] == s[k]);
        }
        if j > 0 {
            assert(t[j - 1] == s[j - 1]);
        }
        lemma_trim_end_index(t, j);
    }
}

/// `str::trim`: the string without leading and trailing Unicode whitespace.
pub fn trim(s: &str) -> (r: String)
    ensures
        r@ == trimmed(s@),
{
    let n = s.unicode_len();
    let mut i: usize = 0;
    while i < n && is_whitespace(s.get_char(i))
        invariant
            n == s@.len(),
            i <= n,
            forall|k: int| 0 <= k < i ==> is_unicode_whitespace(#[trigger] s@[k]),
        decreases n - i,
    {
        i = i + 1;
    }
    proof {
        lemma_trim_start_index(s@, i as int);
    }
    let mut j: usize = n;
    while j > 0 && is_whitespace(s.get_char(j - 1))
        invariant
            n == s@.len(),
            j <= n,
            forall|k: int| j <= k < n ==> is_unicode_whitespace(#[trigger] s@[k]),
        decreases j,
    {
        j = j - 1;
    }
    proof {
        lemma_trim_end_index(s@, j as int);
    }
    if i < j {
        String::from_str(s.substring_char(i, j))
    } else {
        String::new()
    }
}


/// The characters of a string slice, in order.
pub fn chars_of(s: &str) -> (v: Vec<char>)
    ensures
        v@ == s@,
{
    let n = s.unicode_len();
    let mut v: Vec<char> = Vec::new();
    let mut i: usize = 0;
    while i < n
        invariant
            n == s@.len(),
            i <= n,
            v@ == s@.subrange(0, i as int),
        decreases n - i,
    {
        v.push(s.get_char(i));
        i = i + 1;
    }
    v
}

/// `needle` occurs in `hay` at position `i`.
pub open spec fn occurs_at(hay: Seq<char>, needle: Seq<char>, i: int) -> bool {
    0 <= i && i + needle.len() <= hay.len() && hay.subrange(i, i + needle.len()) == needle
}

/// `needle` occurs somewhere in `hay` (`str::contains` with a string pattern).
pub open spec fn contains_seq(hay: Seq<char>, needle: Seq<char>) -> bool {
    exists|i: int| occurs_at(hay, needle, i)
}

/// `hay` begins with `prefix` (`str::starts_with` with a string pattern).
pub open spec fn starts_with_seq(hay: Seq<char>, prefix: Seq<char>) -> bool {
    occurs_at(hay, prefix, 0)
}

fn matches_at(hay: &Vec<char>, needle: &Vec<char>, i: usize) -> (r: bool)
    requires
        i + needle@.len() <= hay@.len(),
    ensures
        r == occurs_at(hay@, needle@, i as int),
{
    let m = needle.len();
    let mut k: usize = 0;
    while k < m
        invariant
            m == needle@.len(),
            i + m <= hay@.len(),
            hay@.len() == hay.len(),
            k <= m,
            forall|t: int| 0 <= t < k ==> hay@[i + t] == needle@[t],
        decreases m - k,
    {
        if hay[i + k] != needle[k] {
            assert(hay@.subrange(i as int, i + m)[k as int] != needle@[k as int]);
            return false;
        }
        k = k + 1;
    }
    assert(hay@.subrange(i as int, i + m) =~= needle@);
    true
}

/// String equality.
pub fn same_text(a: &str, b: &str) -> (r: bool)
    ensures
        r == (a@ == b@),
{
    let r = a.unicode_len() == b.unicode_len() && starts_with(a, b);
    proof {
        assert(a@.subrange(0, a@.len() as int) =~= a@);
    }
    r
}

/// `str::starts_with`.
pub fn starts_with(hay: &str, prefix: &str) -> (r: bool)
    ensures
        r == starts_with_seq(hay@, prefix@),
{
    let h = chars_of(hay);
    let p = chars_of(prefix);
    if p.len() > h.len() {
        false
    } else {
        matches_at(&h, &p, 0)
    }
}

/// `str::contains`.
pub fn contains(hay: &str, needle: &str) -> (r: bool)
    ensures
        r == contains_seq(hay@, needle@),
{
    let h = chars_of(hay);
    let p = chars_of(needle);
    if p.len() > h.len() {
        return false;
    }
    let last = h.len() - p.len();
    let mut i: usize = 0;
    loop
        invariant
            h@ == hay@,
            p@ == needle@,
            i <= last,
            last + p@.len() == h@.len(),
            forall|t: int| 0 <= t < i ==> !occurs_at(hay@, needle@, t),
        decreases last - i,
    {
        if matches_at(&h, &p, i) {
            return true;
        }
        if i == last {
            assert forall|t: int| !occurs_at(hay@, needle@, t) by {
                if 0 <= t < i {
                }
            }
            return false;
        }
        i = i + 1;
    }
}

/// The decimal digit character for `d < 10`.
pub open spec fn digit_char(d: nat) -> char {
    if d == 0 {
        '0'
    } else if d == 1 {
        '1'
    } else if d == 2 {
        '2'
    } else if d == 3 {
        '3'
    } else if d == 4 {
        '4'
    } else if d == 5 {
        '5'
    } else if d == 6 {
        '6'
    } else if d == 7 {
        '7'
    } else if d == 8 {
        '8'
    } else {
        '9'
    }
}

/// Decimal notation of a natural number, without leading zeros
/// (what `Display` prints for unsigned integers).
pub open spec fn decimal(n: nat) -> Seq<char>
    decreases n,
{
    if n < 10 {
        seq![digit_char(n)]
    } else {
        decimal(n / 10).push(digit_char(n % 10))
    }
}

fn digit(d: u128) -> (c: char)
    requires
        d < 10,
    ensures
        c == digit_char(d as nat),
{
    if d == 0 {
        '0'
    } else if d == 1 {
        '1'
    } else if d == 2 {
        '2'
    } else if d == 3 {
        '3'
    } else if d == 4 {
        '4'
    } else if d == 5 {
        '5'
    } else if d == 6 {
        '6'
    } else if d == 7 {
        '7'
    } else if d == 8 {
        '8'
    } else {
        '9'
    }
}

/// Appends the decimal notation of `n` to `s`.
pub fn push_decimal(s: &mut String, n: u128)
    ensures
        final(s)@ == old(s)@ + decimal(n as nat),
    decreases n,
{
    if n >= 10 {
        push_decimal(s, n / 10);
    }
    push_char(s, digit(n % 10));
    proof {
        if n < 10 {
            assert(old(s)@ + decimal(n as nat) =~= old(s)@.push(digit_char(n as nat)));
        } else {
            assert((old(s)@ + decimal((n / 10) as nat)).push(digit_char((n % 10) as nat)) =~= old(s)@
                + decimal(n as nat));
        }
    }
}


/// What one character becomes when every `"` is replaced by `` `" ``
/// (`str::replace('"', "`\"")`).
pub open spec fn backtick_piece(c: char) -> Seq<char> {
    if c == '"' {
        seq!['`', '"']
    } else {
        seq![c]
    }
}

/// `s` with every double quote preceded by a backtick, PowerShell's escape.
pub open spec fn backtick_escaped(s: Seq<char>) -> Seq<char>
    decreases s.len(),
{
    if s.len() == 0 {
        Seq::empty()
    } else {
        backtick_escaped(s.drop_last()) + backtick_piece(s.last())
    }
}

/// Replaces every `"` in `s` by `` `" ``.
pub fn escape_double_quotes_with_backtick(s: &str) -> (r: String)
    ensures
        r@ == backtick_escaped(s@),
{
    let n = s.unicode_len();
    let mut r = String::new();
    let mut i: usize = 0;
    while i < n
        invariant
            n == s@.len(),
            i <= n,
            r@ == backtick_escaped(s@.subrange(0, i as int)),
        decreases n - i,
    {
        let c = s.get_char(i);
        if c == '"' {
            push_char(&mut r, '`');
        }
        push_char(&mut r, c);
        proof {
            let pre = s@.subrange(0, i + 1);
            assert(pre.drop_last() =~= s@.subrange(0, i as int));
            assert(pre.last() == c);
        }
        i = i + 1;
        assert(r@ =~= backtick_escaped(s@.subrange(0, i as int)));
    }
    assert(s@.subrange(0, n as int) =~= s@);
    r
}

/// What `char::escape_debug` writes for a character, as the outside
/// formatting code decides it.
pub uninterp spec fn std_escape_debug(c: char) -> Seq<char>;

/// Escapes one character as `char::escape_debug` does.
///
/// Trusted: calls `char::escape_debug` from std and collects its output;
/// the result is named `std_escape_debug(c)` and nothing more is claimed.
#[verifier::external_body]
fn escape_debug_char(c: char) -> (r: String)
    ensures
        r@ == std_escape_debug(c),
{
    c.escape_debug().to_string()
}

/// What `Debug` for `str` writes for one character inside the quotes:
/// printable ASCII stays, `"` `\` and the common control characters get a
/// backslash escape, and every other character is escaped as
/// `char::escape_debug` escapes it.
pub open spec fn debug_piece(c: char) -> Seq<char> {
    if c == '"' {
        seq!['\\', '"']
    } else if c == '\\' {
        seq!['\\', '\\']
    } else if c == '\n' {
        seq!['\\', 'n']
    } else if c == '\r' {
        seq!['\\', 'r']
    } else if c == '\t' {
        seq!['\\', 't']
    } else if c == '\0' {
        seq!['\\', '0']
    } else if 0x20 <= (c as u32) <= 0x7e {
        seq![c]
    } else {
        std_escape_debug(c)
    }
}

/// The characters of `s`, each escaped by `debug_piece`.
pub open spec fn debug_escaped(s: Seq<char>) -> Seq<char>
    decreases s.len(),
{
    if s.len() == 0 {
        Seq::empty()
    } else {
        debug_escaped(s.drop_last()) + debug_piece(s.last())
    }
}

/// `format!("{:?}", s)` for a string: the escaped characters in double quotes.
pub open spec fn debug_quoted(s: Seq<char>) -> Seq<char> {
    seq!['"'] + debug_escaped(s) + seq!['"']
}

fn push_debug_piece(r: &mut String, c: char)
    ensures
        final(r)@ == old(r)@ + debug_piece(c),
{
    let v = c as u32;
    if c == '"' || c == '\\' {
        push_char(r, '\\');
        push_char(r, c);
    } else if c == '\n' {
        push_char(r, '\\');
        push_char(r, 'n');
    } else if c == '\r' {
        push_char(r, '\\');
        push_char(r, 'r');
    } else if c == '\t' {
        push_char(r, '\\');
        push_char(r, 't');
    } else if c == '\0' {
        push_char(r, '\\');
        push_char(r, '0');
    } else if 0x20 <= v && v <= 0x7e {
        push_char(r, c);
    } else {
        let e = escape_debug_char(c);
        r.append(e.as_str());
    }
    assert(final(r)@ =~= old(r)@ + debug_piece(c));
}

/// Quotes a string the way `format!("{:?}", value)` does.
pub fn debug_quote(value: &str) -> (r: String)
    ensures
        r@ == debug_quoted(value@),
{
    let n = value.unicode_len();
    let mut r = String::new();
    push_char(&mut r, '"');
    let mut i: usize = 0;
    while i < n
        invariant
            n == value@.len(),
            i <= n,
            r@ == seq!['"'] + debug_escaped(value@.subrange(0, i as int)),
        decreases n - i,
    {
        let c = value.get_char(i);
        push_debug_piece(&mut r, c);
        proof {
            let pre = value@.subrange(0, i + 1);
            assert(pre.drop_last() =~= value@.subrange(0, i as int));
            assert(pre.last() == c);
        }
        i = i + 1;
        assert(r@ =~= seq!['"'] + debug_escaped(value@.subrange(0, i as int)));
    }
    push_char(&mut r, '"');
    assert(value@.subrange(0, n as int) =~= value@);
    r
}


/// What `String::from_utf8_lossy` decodes from the given bytes.
pub uninterp spec fn lossy_utf8(bytes: Seq<u8>) -> Seq<char>;

/// Decodes bytes as UTF-8, replacing invalid sequences.
///
/// Trusted: calls `String::from_utf8_lossy`. Its result is named
/// `lossy_utf8(bytes)`; its documentation says that valid UTF-8 is decoded
/// unchanged, which the second clause states.
#[verifier::external_body]
pub fn decode_lossy(bytes: &[u8]) -> (r: String)
    ensures
        r@ == lossy_utf8(bytes@),
        valid_utf8(bytes@) ==> r@ == decode_utf8(bytes@),
{
    String::from_utf8_lossy(bytes).into_owned()
}

/// The message of the error `String::from_utf8` reports for the given bytes.
pub uninterp spec fn utf8_error_text(bytes: Seq<u8>) -> Seq<char>;

/// Decodes bytes as UTF-8, or gives the decoding error's message.
///
/// Trusted: calls `String::from_utf8` and, on failure, the `Display` of its
/// error. It claims what the documentation of `from_utf8` says: the bytes
/// decode if and only if they are valid UTF-8, and then to the characters
/// they encode; the error's message is only named.
#[verifier::external_body]
pub fn decode_strict(bytes: Vec<u8>) -> (r: Result<String, String>)
    ensures
        r is Ok <==> valid_utf8(bytes@),
        r matches Ok(s) ==> s@ == decode_utf8(bytes@),
        r matches Err(m) ==> m@ == utf8_error_text(bytes@),
{
    match String::from_utf8(bytes) {
        Ok(s) => Ok(s),
        Err(e) => Err(e.to_string()),
    }
}


// ───────────────────────── laws ─────────────────────────

proof fn lemma_trim_start_props(s: Seq<char>)
    ensures
        0 <= trim_start_index(s) <= s.len(),
        forall|k: int| 0 <= k < trim_start_index(s) ==> is_unicode_whitespace(#[trigger] s[k]),
        trim_start_index(s) < s.len() ==> !is_unicode_whitespace(s[trim_start_index(s)]),
    decreases s.len(),
{
    if s.len() > 0 && is_unicode_whitespace(s[0]) {
        let t = s.drop_first();
        lemma_trim_start_props(t);
        assert forall|k: int| 0 <= k < trim_start_index(s) implies is_unicode_whitespace(
            #[trigger] s[k],
        ) by {
            if k > 0 {
                assert(s[k] == t[k - 1]);
            }
        }
        if trim_start_index(s) < s.len() {
            assert(s[trim_start_index(s)] == t[trim_start_index(t)]);
        }
    }
}

proof fn lemma_trim_end_props(s: Seq<char>)
    ensures
        0 <= trim_end_index(s) <= s.len(),
        forall|k: int| trim_end_index(s) <= k < s.len() ==> is_unicode_whitespace(#[trigger] s[k]),
        trim_end_index(s) > 0 ==> !is_unicode_whitespace(s[trim_end_index(s) - 1]),
    decreases s.len(),
{
    if s.len() > 0 && is_unicode_whitespace(s.last()) {
        let t = s.drop_last();
        lemma_trim_end_props(t);
        assert forall|k: int| trim_end_index(s) <= k < s.len() implies is_unicode_whitespace(
            #[trigger] s[k],
        ) by {
            if k < t.len() {
                assert(s[k] == t[k]);
            }
        }
        if trim_end_index(s) > 0 {
            assert(s[trim_end_index(s) - 1] == t[trim_end_index(t) - 1]);
        }
    }
}

/// A non-empty text that neither begins nor ends with whitespace is its own
/// trimmed form.
pub proof fn lemma_trimmed_unchanged(s: Seq<char>)
    requires
        s.len() > 0,
        !is_unicode_whitespace(s[0]),
        !is_unicode_whitespace(s.last()),
    ensures
        trimmed(s) == s,
{
    lemma_trim_start_index(s, 0);
    lemma_trim_end_index(s, s.len() as int);
    assert(s.subrange(0, s.len() as int) =~= s);
}

/// Trimming keeps a contiguous part of the text that neither begins nor
/// ends with whitespace, and drops only whitespace around it.
pub proof fn law_trim_drops_only_outer_whitespace(s: Seq<char>)
    ensures
        trimmed(s).len() > 0 ==> !is_unicode_whitespace(trimmed(s)[0]) && !is_unicode_whitespace(
            trimmed(s).last(),
        ),
        exists|a: int, b: int|
            0 <= a <= b <= s.len() && trimmed(s) == s.subrange(a, b) && (forall|k: int|
                0 <= k < a ==> is_unicode_whitespace(#[trigger] s[k])) && (forall|k: int|
                b <= k < s.len() ==> is_unicode_whitespace(#[trigger] s[k])),
{
    lemma_trim_start_props(s);
    lemma_trim_end_props(s);
    let a = trim_start_index(s);
    let b = trim_end_index(s);
    if a < b {
        assert(trimmed(s) == s.subrange(a, b));
        assert(trimmed(s)[0] == s[a]);
        assert(trimmed(s).last() == s[b - 1]);
    } else {
        assert(s.subrange(a, a) =~= Seq::<char>::empty());
        assert forall|k: int| a <= k < s.len() implies is_unicode_whitespace(#[trigger] s[k]) by {
            if k < b {
            }
        }
        assert(trimmed(s) == s.subrange(a, a));
    }
}

/// Trimming twice is trimming once.
pub proof fn law_trim_is_idempotent(s: Seq<char>)
    ensures
        trimmed(trimmed(s)) == trimmed(s),
{
    lemma_trim_start_props(s);
    lemma_trim_end_props(s);
    let a = trim_start_index(s);
    let b = trim_end_index(s);
    if a < b {
        let t = s.subrange(a, b);
        assert(t[0] == s[a]);
        assert(t.last() == s[b - 1]);
        lemma_trimmed_unchanged(t);
    } else {
        assert(trim_start_index(Seq::<char>::empty()) == 0);
        assert(trim_end_index(Seq::<char>::empty()) == 0);
    }
}

/// Characters `Debug` writes unchanged: printable ASCII other than `"`
/// and `\`.
pub open spec fn is_plain_debug_char(c: char) -> bool {
    0x20 <= (c as u32) <= 0x7e && c != '"' && c != '\\'
}

proof fn lemma_plain_text_escapes_verbatim(s: Seq<char>)
    requires
        forall|i: int| 0 <= i < s.len() ==> is_plain_debug_char(#[trigger] s[i]),
    ensures
        debug_escaped(s) == s,
    decreases s.len(),
{
    if s.len() > 0 {
        let t = s.drop_last();
        assert forall|i: int| 0 <= i < t.len() implies is_plain_debug_char(#[trigger] t[i]) by {
            assert(t[i] == s[i]);
        }
        lemma_plain_text_escapes_verbatim(t);
        let c = s[s.len() - 1];
        assert(is_plain_debug_char(c));
        assert(debug_piece(c) == seq![c]);
        assert(debug_escaped(s) =~= s);
    } else {
        assert(debug_escaped(s) =~= s);
    }
}

/// A text of plain characters is quoted as itself between double quotes.
pub proof fn law_plain_text_quotes_verbatim(s: Seq<char>)
    requires
        forall|i: int| 0 <= i < s.len() ==> is_plain_debug_char(#[trigger] s[i]),
    ensures
        debug_quoted(s) == seq!['"'] + s + seq!['"'],
{
    lemma_plain_text_escapes_verbatim(s);
}

/// What a backslash escape `\x` stands for inside a string literal.
pub open spec fn escaped_char(x: char) -> char {
    if x == 'n' {
        '\n'
    } else if x == 'r' {
        '\r'
    } else if x == 't' {
        '\t'
    } else if x == '0' {
        '\0'
    } else {
        x
    }
}

/// Reading the body of a string literal: a backslash and the character
/// after it stand for one character, every other character for itself.
pub open spec fn unescaped(e: Seq<char>) -> Seq<char>
    decreases e.len(),
{
    if e.len() == 0 {
        Seq::empty()
    } else if e[0] == '\\' && e.len() >= 2 {
        seq![escaped_char(e[1])] + unescaped(e.subrange(2, e.len() as int))
    } else {
        seq![e[0]] + unescaped(e.drop_first())
    }
}

/// The body of a string literal cannot end it early: read from the front,
/// each backslash begins a complete two-character escape, and no other
/// character is a double quote or a line break.
pub open spec fn stays_inside_literal(e: Seq<char>) -> bool
    decreases e.len(),
{
    if e.len() == 0 {
        true
    } else if e[0] == '\\' {
        e.len() >= 2 && stays_inside_literal(e.subrange(2, e.len() as int))
    } else {
        e[0] != '"' && e[0] != '\n' && e[0] != '\r' && stays_inside_literal(e.drop_first())
    }
}

/// ASCII characters whose `Debug` form the library states in full:
/// printable ASCII, newline, carriage return, tab and NUL.
pub open spec fn is_common_ascii(c: char) -> bool {
    (0x20 <= (c as u32) <= 0x7e) || c == '\n' || c == '\r' || c == '\t' || c == '\0'
}

proof fn lemma_debug_escaped_front(s: Seq<char>)
    requires
        s.len() > 0,
    ensures
        debug_escaped(s) == debug_piece(s[0]) + debug_escaped(s.drop_first()),
    decreases s.len(),
{
    if s.len() == 1 {
        assert(s.drop_last().len() == 0);
        assert(s.drop_first().len() == 0);
        assert(debug_escaped(s.drop_last()) =~= Seq::<char>::empty());
        assert(debug_escaped(s.drop_first()) =~= Seq::<char>::empty());
        assert(s.last() == s[0]);
        assert(debug_escaped(s) =~= debug_piece(s[0]) + debug_escaped(s.drop_first()));
    } else {
        let d = s.drop_last();
        lemma_debug_escaped_front(d);
        assert(d[0] == s[0]);
        assert(d.drop_first() =~= s.drop_first().drop_last());
        assert(s.drop_first().last() == s.last());
        assert(debug_escaped(s) =~= debug_piece(s[0]) + debug_escaped(s.drop_first()));
    }
}

/// For ASCII text made of printable characters, line breaks, tabs and NUL,
/// the quoted form keeps the value inside the literal and reads back as the
/// value: no character of the value can end the literal early.
pub proof fn law_quoted_ascii_text_reads_back(s: Seq<char>)
    requires
        forall|i: int| 0 <= i < s.len() ==> is_common_ascii(#[trigger] s[i]),
    ensures
        stays_inside_literal(debug_escaped(s)),
        unescaped(debug_escaped(s)) == s,
    decreases s.len(),
{
    if s.len() == 0 {
        assert(debug_escaped(s).len() == 0);
        assert(unescaped(debug_escaped(s)) =~= s);
    } else {
        let rest = s.drop_first();
        assert forall|i: int| 0 <= i < rest.len() implies is_common_ascii(#[trigger] rest[i]) by {
            assert(rest[i] == s[i + 1]);
        }
        law_quoted_ascii_text_reads_back(rest);
        lemma_debug_escaped_front(s);
        let c = s[0];
        assert(is_common_ascii(c));
        let p = debug_piece(c);
        let re = debug_escaped(rest);
        let e = p + re;
        if c == '"' || c == '\\' || c == '\n' || c == '\r' || c == '\t' || c == '\0' {
            assert(p.len() == 2 && p[0] == '\\');
            assert(e[0] == '\\' && e[1] == p[1]);
            assert(e.subrange(2, e.len() as int) =~= re);
            assert(escaped_char(p[1]) == c);
        } else {
            assert(p =~= seq![c]);
            assert(e[0] == c);
            assert(e.drop_first() =~= re);
        }
        assert(unescaped(e) =~= s);
    }
}

/// A text without double quotes is left as it is by the backtick escape.
pub proof fn law_backtick_escape_keeps_quote_free_text(s: Seq<char>)
    requires
        forall|i: int| 0 <= i < s.len() ==> #[trigger] s[i] != '"',
    ensures
        backtick_escaped(s) == s,
    decreases s.len(),
{
    if s.len() > 0 {
        let t = s.drop_last();
        assert forall|i: int| 0 <= i < t.len() implies #[trigger] t[i] != '"' by {
            assert(t[i] == s[i]);
        }
        law_backtick_escape_keeps_quote_free_text(t);
        assert(s[s.len() - 1] != '"');
        assert(backtick_escaped(s) =~= s);
    }
}

/// The decimal notation of a number ends in a digit.
pub proof fn lemma_decimal_ends_in_digit(n: nat)
    ensures
        decimal(n).len() > 0,
        0x30 <= (decimal(n).last() as u32) <= 0x39,
    decreases n,
{
    if n >= 10 {
        lemma_decimal_ends_in_digit(n / 10);
    }
}

} // verus!
