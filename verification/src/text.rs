//! Text helpers: comparison, searching, number formatting and translation.
//!
//! A `&str` or `String` is modelled by its view, the sequence of its characters.

use vstd::prelude::*;

verus! {

// ── Equality and conversion ────────────────────────────────────────────────

/// `String::push` appends one character at the end of the string.
pub assume_specification[ String::push ](s: &mut String, ch: char)
    ensures
        final(s)@ == old(s)@.push(ch),
;

/// Whether two strings hold the same characters.
pub fn str_eq(a: &str, b: &str) -> (r: bool)
    ensures
        r == (a@ == b@),
{
    let x: String = a.to_string();
    let y: String = b.to_string();
    x == y
}

/// The characters of a string, in order.
pub fn chars_of(s: &str) -> (r: Vec<char>)
    ensures
        r@ == s@,
{
    let mut v: Vec<char> = Vec::new();
    for c in it: s.chars()
        invariant
            v@ == it.seq().take(it.index()),
    {
        v.push(c);
    }
    v
}

/// Two strings one after the other.
pub fn cat(a: &str, b: &str) -> (r: String)
    ensures
        r@ == a@ + b@,
{
    let mut s: String = a.to_string();
    s.append(b);
    s
}

/// Three strings one after the other.
pub fn cat3(a: &str, b: &str, c: &str) -> (r: String)
    ensures
        r@ == a@ + b@ + c@,
{
    let mut s: String = cat(a, b);
    s.append(c);
    s
}

// ── Searching ──────────────────────────────────────────────────────────────

/// `pattern` occurs in `text` at position `at`.
pub open spec fn occurs_at(text: Seq<char>, pattern: Seq<char>, at: int) -> bool {
    0 <= at && at + pattern.len() <= text.len() && text.subrange(at, at + pattern.len()) == pattern
}

/// `text` starts with `pattern`.
pub open spec fn has_prefix(text: Seq<char>, pattern: Seq<char>) -> bool {
    occurs_at(text, pattern, 0)
}

/// `pattern` occurs somewhere in `text`.
pub open spec fn has_substring(text: Seq<char>, pattern: Seq<char>) -> bool {
    exists|at: int| occurs_at(text, pattern, at)
}

/// Whether `pattern` occurs in `text` at position `at`.
pub fn matches_at(text: &Vec<char>, pattern: &Vec<char>, at: usize) -> (r: bool)
    ensures
        r == occurs_at(text@, pattern@, at as int),
{
    if at > text.len() || pattern.len() > text.len() - at {
        return false;
    }
    let mut i: usize = 0;
    while i < pattern.len()
        invariant
            i <= pattern.len(),
            at + pattern.len() <= text.len(),
            forall|j: int| 0 <= j < i ==> text@[at + j] == pattern@[j],
        decreases pattern.len() - i,
    {
        if text[at + i] != pattern[i] {
            assert(text@.subrange(at as int, at + pattern@.len())[i as int] != pattern@[i as int]);
            return false;
        }
        i += 1;
    }
    assert(text@.subrange(at as int, at + pattern@.len()) =~= pattern@);
    true
}

/// Whether `text` starts with `pattern`.
pub fn starts_with(text: &str, pattern: &str) -> (r: bool)
    ensures
        r == has_prefix(text@, pattern@),
{
    matches_at(&chars_of(text), &chars_of(pattern), 0)
}

/// Whether `pattern` occurs in `text`.
pub fn contains(text: &str, pattern: &str) -> (r: bool)
    ensures
        r == has_substring(text@, pattern@),
{
    let t: Vec<char> = chars_of(text);
    let p: Vec<char> = chars_of(pattern);
    let mut at: usize = 0;
    while at <= t.len() && p.len() <= t.len() - at
        invariant
            t@ == text@,
            p@ == pattern@,
            at <= t.len() + 1,
            forall|k: int| 0 <= k < at ==> !occurs_at(t@, p@, k),
        decreases t.len() + 1 - at,
    {
        if matches_at(&t, &p, at) {
            return true;
        }
        if at == t.len() {
            assert forall|k: int| !occurs_at(t@, p@, k) by {}
            return false;
        }
        at += 1;
    }
    assert forall|k: int| !occurs_at(t@, p@, k) by {}
    false
}

// ── Letter case and white space ────────────────────────────────────────────

/// The lower-case form of a text, as the standard library's Unicode tables give it.
pub uninterp spec fn lowercase(text: Seq<char>) -> Seq<char>;

/// `str::to_lowercase`: the lower-case form of `s`. What that form is, is left
/// to the Unicode tables; the result depends on `s` alone.
#[verifier::external_body]
pub(crate) fn to_lowercase(s: &str) -> (r: String)
    ensures
        r@ == lowercase(s@),
{
    s.to_lowercase()
}

/// The characters with the Unicode property White_Space.
pub open spec fn white_space(c: char) -> bool {
    ||| '\t' <= c <= '\r'
    ||| c == ' '
    ||| c == '\u{85}'
    ||| c == '\u{a0}'
    ||| c == '\u{1680}'
    ||| '\u{2000}' <= c <= '\u{200a}'
    ||| c == '\u{2028}'
    ||| c == '\u{2029}'
    ||| c == '\u{202f}'
    ||| c == '\u{205f}'
    ||| c == '\u{3000}'
}

/// `char::is_whitespace`: whether `c` has the property White_Space, that is, whether
/// it is one of the characters to which the Unicode tables give it.
#[verifier::external_body]
pub(crate) fn is_whitespace(c: char) -> (r: bool)
    ensures
        r == white_space(c),
{
    c.is_whitespace()
}

/// Where the text starts once leading white space is left out: the least index
/// from `from` on that holds no white space (the length if there is none).
pub open spec fn trim_start_at(text: Seq<char>, from: int) -> int
    decreases text.len() - from,
{
    if from >= text.len() || !white_space(text[from]) {
        from
    } else {
        trim_start_at(text, from + 1)
    }
}

/// Where the text ends once trailing white space is left out.
pub open spec fn trim_end_at(text: Seq<char>, from: int, to: int) -> int
    decreases to - from,
{
    if to <= from || !white_space(text[to - 1]) {
        to
    } else {
        trim_end_at(text, from, to - 1)
    }
}

/// The text without leading and trailing white space.
pub open spec fn trimmed(text: Seq<char>) -> Seq<char> {
    let start = trim_start_at(text, 0);
    text.subrange(start, trim_end_at(text, start, text.len() as int))
}

/// The characters `from..to` of `chars` as a string.
pub fn string_of(chars: &Vec<char>, from: usize, to: usize) -> (r: String)
    requires
        from <= to <= chars.len(),
    ensures
        r@ == chars@.subrange(from as int, to as int),
{
    let mut s: String = String::new();
    let mut i: usize = from;
    while i < to
        invariant
            from <= i <= to <= chars.len(),
            s@ == chars@.subrange(from as int, i as int),
        decreases to - i,
    {
        s.push(chars[i]);
        assert(chars@.subrange(from as int, i as int).push(chars@[i as int]) =~= chars@.subrange(
            from as int,
            i + 1,
        ));
        i += 1;
    }
    s
}

/// The text without leading and trailing white space.
pub fn trim(s: &str) -> (r: String)
    ensures
        r@ == trimmed(s@),
{
    let chars: Vec<char> = chars_of(s);
    let mut start: usize = 0;
    while start < chars.len() && is_whitespace(chars[start])
        invariant
            start <= chars.len(),
            trim_start_at(chars@, 0) == trim_start_at(chars@, start as int),
        decreases chars.len() - start,
    {
        start += 1;
    }
    let mut end: usize = chars.len();
    while end > start && is_whitespace(chars[end - 1])
        invariant
            start <= end <= chars.len(),
            trim_end_at(chars@, start as int, chars@.len() as int) == trim_end_at(
                chars@,
                start as int,
                end as int,
            ),
        decreases end - start,
    {
        end -= 1;
    }
    string_of(&chars, start, end)
}

/// The ASCII lower-case form of a character: `A` to `Z` become `a` to `z`.
pub open spec fn ascii_lower(c: char) -> char {
    if 'A' <= c && c <= 'Z' {
        ((c as u8) + 32) as char
    } else {
        c
    }
}

/// A text with every ASCII capital replaced by its lower-case letter.
pub open spec fn ascii_lowered(text: Seq<char>) -> Seq<char> {
    text.map_values(|c: char| ascii_lower(c))
}

/// `s` with every ASCII capital replaced by its lower-case letter.
pub fn to_ascii_lowercase(s: &str) -> (r: String)
    ensures
        r@ == ascii_lowered(s@),
{
    let chars: Vec<char> = chars_of(s);
    let mut out: String = String::new();
    let mut i: usize = 0;
    while i < chars.len()
        invariant
            i <= chars.len(),
            chars@ == s@,
            out@ == ascii_lowered(s@.take(i as int)),
        decreases chars.len() - i,
    {
        let c: char = chars[i];
        let low: char = if 'A' <= c && c <= 'Z' {
            ((c as u8) + 32) as char
        } else {
            c
        };
        out.push(low);
        assert(ascii_lowered(s@.take(i + 1)) =~= ascii_lowered(s@.take(i as int)).push(
            ascii_lower(c),
        ));
        i += 1;
    }
    assert(s@.take(chars@.len() as int) =~= s@);
    out
}

// ── Order ──────────────────────────────────────────────────────────────────

/// The outcome of comparing two values.
#[derive(Clone, Copy, Debug, PartialEq, Eq, Structural)]
pub enum Order {
    Less,
    Equal,
    Greater,
}

impl Order {
    /// The outcome of the comparison the other way round.
    pub open spec fn spec_reverse(self) -> Order {
        match self {
            Order::Less => Order::Greater,
            Order::Equal => Order::Equal,
            Order::Greater => Order::Less,
        }
    }

    /// The outcome of the comparison the other way round.
    pub fn reverse(self) -> (r: Order)
        ensures
            r == self.spec_reverse(),
    {
        match self {
            Order::Less => Order::Greater,
            Order::Equal => Order::Equal,
            Order::Greater => Order::Less,
        }
    }
}

/// How two integers compare.
pub open spec fn int_order(a: int, b: int) -> Order {
    if a < b {
        Order::Less
    } else if a == b {
        Order::Equal
    } else {
        Order::Greater
    }
}

/// Compares two numbers.
pub fn order_u32(a: u32, b: u32) -> (r: Order)
    ensures
        r == int_order(a as int, b as int),
{
    if a < b {
        Order::Less
    } else if a == b {
        Order::Equal
    } else {
        Order::Greater
    }
}

/// Compares two numbers.
pub fn order_usize(a: usize, b: usize) -> (r: Order)
    ensures
        r == int_order(a as int, b as int),
{
    if a < b {
        Order::Less
    } else if a == b {
        Order::Equal
    } else {
        Order::Greater
    }
}

/// How two texts compare in dictionary order of their code points from index
/// `i` on (which is the order of their UTF-8 bytes).
pub open spec fn text_order_from(a: Seq<char>, b: Seq<char>, i: int) -> Order
    decreases a.len() - i,
{
    if i >= a.len() {
        if i >= b.len() {
            Order::Equal
        } else {
            Order::Less
        }
    } else if i >= b.len() {
        Order::Greater
    } else if a[i] != b[i] {
        int_order(a[i] as int, b[i] as int)
    } else {
        text_order_from(a, b, i + 1)
    }
}

/// How two texts compare in dictionary order of their code points.
pub open spec fn text_order(a: Seq<char>, b: Seq<char>) -> Order {
    text_order_from(a, b, 0)
}

/// Compares two texts in dictionary order of their code points.
pub fn order_text(a: &str, b: &str) -> (r: Order)
    ensures
        r == text_order(a@, b@),
{
    let x: Vec<char> = chars_of(a);
    let y: Vec<char> = chars_of(b);
    let mut i: usize = 0;
    while i < x.len() && i < y.len()
        invariant
            x@ == a@,
            y@ == b@,
            i <= x.len(),
            i <= y.len(),
            text_order(x@, y@) == text_order_from(x@, y@, i as int),
        decreases x.len() - i,
    {
        if x[i] != y[i] {
            if x[i] < y[i] {
                return Order::Less;
            } else {
                return Order::Greater;
            }
        }
        i += 1;
    }
    order_usize(x.len(), y.len())
}

/// Dictionary order read from index `i` on is antisymmetric, and equality in it
/// is equality of the texts from there on.
proof fn lemma_text_order_from_antisymmetric(a: Seq<char>, b: Seq<char>, i: int)
    requires
        0 <= i <= a.len(),
        i <= b.len(),
    ensures
        text_order_from(b, a, i) == text_order_from(a, b, i).spec_reverse(),
        text_order_from(a, b, i) == Order::Equal <==> a.skip(i) == b.skip(i),
    decreases a.len() - i,
{
    if i < a.len() && i < b.len() {
        if a[i] == b[i] {
            lemma_text_order_from_antisymmetric(a, b, i + 1);
            assert(a.skip(i) == b.skip(i) <==> a.skip(i + 1) == b.skip(i + 1)) by {
                assert(a.skip(i) =~= seq![a[i]] + a.skip(i + 1));
                assert(b.skip(i) =~= seq![b[i]] + b.skip(i + 1));
                assert(a.skip(i + 1) =~= a.skip(i).skip(1));
                assert(b.skip(i + 1) =~= b.skip(i).skip(1));
            }
        } else {
            assert(a.skip(i)[0] != b.skip(i)[0]);
        }
    } else {
        if i == a.len() && i == b.len() {
            assert(a.skip(i) =~= b.skip(i));
        } else {
            assert(a.skip(i).len() != b.skip(i).len());
        }
    }
}

/// Dictionary order of texts is antisymmetric, and only equal texts compare equal.
pub proof fn lemma_text_order_antisymmetric(a: Seq<char>, b: Seq<char>)
    ensures
        text_order(b, a) == text_order(a, b).spec_reverse(),
        text_order(a, b) == Order::Equal <==> a == b,
{
    lemma_text_order_from_antisymmetric(a, b, 0);
    assert(a.skip(0) =~= a);
    assert(b.skip(0) =~= b);
}

proof fn lemma_text_order_from_transitive(a: Seq<char>, b: Seq<char>, c: Seq<char>, i: int)
    requires
        0 <= i <= a.len(),
        i <= b.len(),
        i <= c.len(),
        text_order_from(a, b, i) != Order::Greater,
        text_order_from(b, c, i) != Order::Greater,
    ensures
        text_order_from(a, c, i) != Order::Greater,
        text_order_from(a, c, i) == Order::Equal ==> text_order_from(a, b, i) == Order::Equal
            && text_order_from(b, c, i) == Order::Equal,
    decreases a.len() - i,
{
    if i < a.len() && i < b.len() && i < c.len() && a[i] == b[i] && b[i] == c[i] {
        lemma_text_order_from_transitive(a, b, c, i + 1);
    }
}

/// Dictionary order of texts is transitive.
pub proof fn lemma_text_order_transitive(a: Seq<char>, b: Seq<char>, c: Seq<char>)
    requires
        text_order(a, b) != Order::Greater,
        text_order(b, c) != Order::Greater,
    ensures
        text_order(a, c) != Order::Greater,
        text_order(a, c) == Order::Equal ==> text_order(a, b) == Order::Equal && text_order(b, c)
            == Order::Equal,
{
    lemma_text_order_from_transitive(a, b, c, 0);
}

// ── Numbers ────────────────────────────────────────────────────────────────

/// The character of a decimal digit.
pub open spec fn digit(d: nat) -> char {
    (48 + d) as char
}

/// A number written in decimal, without leading zeros.
pub open spec fn decimal(n: nat) -> Seq<char>
    decreases n,
{
    if n < 10 {
        seq![digit(n)]
    } else {
        decimal(n / 10).push(digit(n % 10))
    }
}

/// A number in decimal is made of digits.
pub proof fn lemma_decimal_digits(n: nat)
    ensures
        decimal(n).len() > 0,
        forall|i: int| 0 <= i < decimal(n).len() ==> '0' <= #[trigger] decimal(n)[i] <= '9',
    decreases n,
{
    if n >= 10 {
        lemma_decimal_digits(n / 10);
    }
}

/// Different numbers are written differently.
pub proof fn lemma_decimal_injective(a: nat, b: nat)
    requires
        decimal(a) == decimal(b),
    ensures
        a == b,
    decreases a,
{
    lemma_decimal_digits(a / 10);
    lemma_decimal_digits(b / 10);
    assert(digit(a % 10) as int == 48 + a % 10);
    assert(digit(b % 10) as int == 48 + b % 10);
    if a < 10 && b < 10 {
        assert(a % 10 == a && b % 10 == b);
        assert(decimal(a)[0] == digit(a) && decimal(b)[0] == digit(b));
    } else if a >= 10 && b >= 10 {
        assert(decimal(a).last() == digit(a % 10) && decimal(b).last() == digit(b % 10));
        assert(decimal(a / 10) =~= decimal(a).drop_last());
        assert(decimal(b / 10) =~= decimal(b).drop_last());
        lemma_decimal_injective(a / 10, b / 10);
    } else {
        assert(decimal(a).len() != decimal(b).len());
    }
}

/// The number in decimal.
pub fn decimal_of(n: usize) -> (r: String)
    ensures
        r@ == decimal(n as nat),
    decreases n,
{
    let last: u8 = (n % 10) as u8;
    let ch: char = (48 + last) as char;
    let mut s: String = if n < 10 {
        String::new()
    } else {
        decimal_of(n / 10)
    };
    s.push(ch);
    assert(n < 10 ==> s@ =~= seq![digit(n as nat)]);
    s
}

// ── Lists of words ─────────────────────────────────────────────────────────

/// The parts one after the other with `sep` between each two of them.
pub open spec fn joined(parts: Seq<Seq<char>>, sep: Seq<char>) -> Seq<char>
    decreases parts.len(),
{
    if parts.len() == 0 {
        Seq::empty()
    } else if parts.len() == 1 {
        parts[0]
    } else {
        joined(parts.drop_last(), sep) + sep + parts.last()
    }
}

/// The parts one after the other with `sep` between each two of them.
pub fn join(parts: &Vec<String>, sep: &str) -> (r: String)
    ensures
        r@ == joined(parts.deep_view(), sep@),
{
    let mut out: String = String::new();
    let ghost all = parts.deep_view();
    let mut i: usize = 0;
    while i < parts.len()
        invariant
            i <= parts.len(),
            all == parts.deep_view(),
            all.len() == parts.len(),
            out@ == joined(all.take(i as int), sep@),
        decreases parts.len() - i,
    {
        assert(all.take(i + 1).drop_last() =~= all.take(i as int));
        assert(all.take(i + 1).last() == parts@[i as int]@);
        if i > 0 {
            out.append(sep);
        }
        out.append(parts[i].as_str());
        assert(i == 0 ==> out@ =~= parts@[0]@);
        i += 1;
    }
    assert(all.take(parts@.len() as int) =~= all);
    out
}

/// Whether `id` is one of `ids`.
pub fn id_in(ids: &Vec<String>, id: &str) -> (r: bool)
    ensures
        r == ids.deep_view().contains(id@),
{
    let mut i: usize = 0;
    while i < ids.len()
        invariant
            i <= ids.len(),
            forall|j: int| 0 <= j < i ==> ids@[j]@ != id@,
        decreases ids.len() - i,
    {
        if str_eq(ids[i].as_str(), id) {
            assert(ids.deep_view()[i as int] == id@);
            return true;
        }
        i += 1;
    }
    false
}

// ── Translation ────────────────────────────────────────────────────────────

/// No character of the text is NUL.
pub open spec fn no_nul(text: Seq<char>) -> bool {
    forall|i: int| 0 <= i < text.len() ==> text[i] != '\0'
}

/// The text is one that some message catalog may hold for the message `msgid`.
/// A message has as many such texts as there are languages.
pub uninterp spec fn translates(text: Seq<char>, msgid: Seq<char>) -> bool;

/// The text is one that some message catalog may hold for `n` items, where the
/// message is `singular` for one of them and `plural` for several.
pub uninterp spec fn translates_count(
    text: Seq<char>,
    singular: Seq<char>,
    plural: Seq<char>,
    n: u32,
) -> bool;

/// `gettextrs::gettext`: the text that the message catalog of the current
/// locale holds for `msgid`. Which of the texts for that message it is depends on
/// the locale and on the installed catalogs, and may differ from call to call.
/// `gettext` panics on a NUL character, which the precondition excludes, and on a
/// catalog that is not in UTF-8, which the program rules out by binding its text
/// domain to that codeset.
#[verifier::external_body]
pub(crate) fn gettext(msgid: &str) -> (r: String)
    requires
        no_nul(msgid@),
    ensures
        translates(r@, msgid@),
{
    gettextrs::gettext(msgid)
}

/// `gettextrs::ngettext`: the text that the message catalog of the current
/// locale holds for `n` items. As with `gettext`, nothing more is claimed of the
/// result than what it was asked for.
#[verifier::external_body]
pub(crate) fn ngettext(singular: &str, plural: &str, n: u32) -> (r: String)
    requires
        no_nul(singular@),
        no_nul(plural@),
    ensures
        translates_count(r@, singular@, plural@, n),
{
    gettextrs::ngettext(singular, plural, n)
}

/// The first index from `from` on at which the placeholder `{}` stands, or
/// `None` if there is none.
pub open spec fn placeholder_from(template: Seq<char>, from: int) -> Option<int>
    decreases template.len() - from,
{
    if from + 1 >= template.len() {
        None
    } else if template[from] == '{' && template[from + 1] == '}' {
        Some(from)
    } else {
        placeholder_from(template, from + 1)
    }
}

/// The template with its first placeholder `{}` replaced by `value`; a template
/// without a placeholder is left as it is.
pub open spec fn filled(template: Seq<char>, value: Seq<char>) -> Seq<char> {
    match placeholder_from(template, 0) {
        Some(at) => template.take(at) + value + template.skip(at + 2),
        None => template,
    }
}

/// The template with its first placeholder `{}` replaced by `value`.
pub fn fill(template: &str, value: &str) -> (r: String)
    ensures
        r@ == filled(template@, value@),
{
    let t: Vec<char> = chars_of(template);
    let mut at: usize = 0;
    while at < t.len() && 1 < t.len() - at
        invariant
            at <= t.len(),
            t@ == template@,
            placeholder_from(template@, 0) == placeholder_from(template@, at as int),
        decreases t.len() - at,
    {
        if t[at] == '{' && t[at + 1] == '}' {
            let head: String = string_of(&t, 0, at);
            let tail: String = string_of(&t, at + 2, t.len());
            assert(head@ =~= template@.take(at as int));
            assert(tail@ =~= template@.skip(at + 2));
            return cat3(head.as_str(), value, tail.as_str());
        }
        at += 1;
    }
    template.to_string()
}

// ── Laws ───────────────────────────────────────────────────────────────────

/// A text is trimmed of the white space around it, and of nothing else.
pub proof fn law_trim_cuts_only_white_space(
    before: Seq<char>,
    inner: Seq<char>,
    after: Seq<char>,
)
    requires
        forall|i: int| 0 <= i < before.len() ==> white_space(#[trigger] before[i]),
        forall|i: int| 0 <= i < after.len() ==> white_space(#[trigger] after[i]),
        inner.len() > 0 ==> !white_space(inner[0]) && !white_space(inner.last()),
    ensures
        trimmed(before + inner + after) == inner,
{
    let whole = before + inner + after;
    let n = whole.len() as int;
    let start = trim_start_at(whole, 0);
    assert forall|i: int| 0 <= i < before.len() implies white_space(#[trigger] whole[i]) by {
        assert(whole[i] == before[i]);
    }
    assert forall|i: int| before.len() + inner.len() <= i < n implies white_space(
        #[trigger] whole[i],
    ) by {
        assert(whole[i] == after[i - before.len() - inner.len()]);
    }
    if inner.len() == 0 {
        lemma_trim_start_passes(whole, 0, n);
        assert(start == n);
        assert(trimmed(whole) =~= inner);
    } else {
        let s = before.len() as int;
        let e = s + inner.len();
        assert(whole[s] == inner[0]);
        assert(whole[e - 1] == inner.last());
        lemma_trim_start_passes(whole, 0, s);
        assert(start == s);
        lemma_trim_end_passes(whole, s, e, n);
        assert(trimmed(whole) =~= inner);
    }
}

proof fn lemma_trim_start_passes(text: Seq<char>, from: int, to: int)
    requires
        0 <= from <= to <= text.len(),
        forall|i: int| from <= i < to ==> white_space(#[trigger] text[i]),
        to == text.len() || !white_space(text[to]),
    ensures
        trim_start_at(text, from) == to,
    decreases to - from,
{
    if from < to {
        assert(white_space(text[from]));
        lemma_trim_start_passes(text, from + 1, to);
    }
}

proof fn lemma_trim_end_passes(text: Seq<char>, from: int, end: int, to: int)
    requires
        0 <= from < end <= to <= text.len(),
        forall|i: int| end <= i < to ==> white_space(#[trigger] text[i]),
        !white_space(text[end - 1]),
    ensures
        trim_end_at(text, from, to) == end,
    decreases to - end,
{
    if end < to {
        assert(white_space(text[to - 1]));
        lemma_trim_end_passes(text, from, end, to - 1);
    }
}

/// A text begins with another, or holds it, if and only if it is that text with
/// something behind it, or with something on either side.
pub proof fn law_texts_hold_their_parts(a: Seq<char>, pattern: Seq<char>, b: Seq<char>)
    ensures
        has_substring(a + pattern + b, pattern),
        has_prefix(pattern + b, pattern),
        forall|text: Seq<char>|
            has_prefix(text, pattern) ==> exists|rest: Seq<char>|
                text == #[trigger] (pattern + rest),
        forall|text: Seq<char>|
            has_substring(text, pattern) ==> exists|x: Seq<char>, y: Seq<char>|
                text == #[trigger] (x + pattern + y),
{
    assert((a + pattern + b).subrange(a.len() as int, (a.len() + pattern.len()) as int)
        =~= pattern);
    assert(occurs_at(a + pattern + b, pattern, a.len() as int));
    assert((pattern + b).subrange(0, pattern.len() as int) =~= pattern);
    assert forall|text: Seq<char>| has_prefix(text, pattern) implies exists|rest: Seq<char>|
        text == #[trigger] (pattern + rest) by {
        let rest = text.skip(pattern.len() as int);
        assert(text =~= pattern + rest);
    }
    assert forall|text: Seq<char>| has_substring(text, pattern) implies exists|
        x: Seq<char>,
        y: Seq<char>,
    |
        text == #[trigger] (x + pattern + y) by {
        let at = choose|at: int| occurs_at(text, pattern, at);
        let x = text.take(at);
        let y = text.skip(at + pattern.len());
        assert(text =~= x + pattern + y);
    }
}

/// Numbers compare by their size.
pub proof fn law_numbers_compare_by_size(a: int, b: int)
    ensures
        int_order(a, b) == Order::Less <==> a < b,
        int_order(a, b) == Order::Greater <==> a > b,
        int_order(a, b) == Order::Equal <==> a == b,
        int_order(b, a) == int_order(a, b).spec_reverse(),
{
}

/// The first place at which two texts differ decides how they compare: the smaller
/// character comes first. A text comes before every longer one that begins with it.
pub proof fn law_texts_compare_like_a_dictionary(
    common: Seq<char>,
    a: Seq<char>,
    b: Seq<char>,
)
    ensures
        a.len() == 0 && b.len() > 0 ==> text_order(common + a, common + b) == Order::Less,
        a.len() > 0 && b.len() > 0 && a[0] < b[0] ==> text_order(common + a, common + b)
            == Order::Less,
        a.len() > 0 && b.len() > 0 && a[0] > b[0] ==> text_order(common + a, common + b)
            == Order::Greater,
{
    let x = common + a;
    let y = common + b;
    lemma_text_order_skips(x, y, 0, common.len() as int);
    if a.len() > 0 {
        assert(x[common.len() as int] == a[0]);
    }
    if b.len() > 0 {
        assert(y[common.len() as int] == b[0]);
    }
}

proof fn lemma_text_order_skips(a: Seq<char>, b: Seq<char>, i: int, k: int)
    requires
        0 <= i <= k <= a.len(),
        k <= b.len(),
        forall|j: int| i <= j < k ==> a[j] == b[j],
    ensures
        text_order_from(a, b, i) == text_order_from(a, b, k),
    decreases k - i,
{
    if i < k {
        assert(a[i] == b[i]);
        lemma_text_order_skips(a, b, i + 1, k);
    }
}

/// A number is written with the digits of its tens and then that of its ones.
pub proof fn law_decimal_places(tens: nat, ones: nat)
    requires
        ones < 10,
    ensures
        decimal(ones) == seq![(('0' as int) + ones) as char],
        tens > 0 ==> decimal(10 * tens + ones) == decimal(tens) + decimal(ones),
{
    if tens > 0 {
        let n: nat = 10 * tens + ones;
        assert(n / 10 == tens && n % 10 == ones);
        assert(decimal(n) =~= decimal(tens) + decimal(ones));
    }
}

/// Lists that are joined one after the other are joined by the same separator.
pub proof fn law_join_of_two_lists(xs: Seq<Seq<char>>, ys: Seq<Seq<char>>, sep: Seq<char>)
    requires
        xs.len() > 0,
        ys.len() > 0,
    ensures
        joined(xs + ys, sep) == joined(xs, sep) + sep + joined(ys, sep),
        joined(Seq::<Seq<char>>::empty(), sep).len() == 0,
        xs.len() == 1 ==> joined(xs, sep) == xs[0],
    decreases ys.len(),
{
    let all = xs + ys;
    assert(all.drop_last() =~= xs + ys.drop_last());
    assert(all.last() == ys.last());
    if ys.len() == 1 {
        assert(xs + ys.drop_last() =~= xs);
    } else {
        law_join_of_two_lists(xs, ys.drop_last(), sep);
        assert(joined(all, sep) =~= joined(xs, sep) + sep + joined(ys, sep));
    }
}

/// The first placeholder of a template is replaced, and the rest stays as it is.
pub proof fn law_fill_replaces_the_first_placeholder(
    head: Seq<char>,
    tail: Seq<char>,
    value: Seq<char>,
)
    requires
        forall|i: int|
            0 <= i < head.len() - 1 ==> !(#[trigger] head[i] == '{' && head[i + 1] == '}'),
    ensures
        filled(head + seq!['{', '}'] + tail, value) == head + value + tail,
{
    let template = head + seq!['{', '}'] + tail;
    let at = head.len() as int;
    assert(template[at] == '{' && template[at + 1] == '}');
    assert forall|i: int| 0 <= i < at implies !(#[trigger] template[i] == '{' && template[i + 1]
        == '}') by {
        assert(template[i] == head[i]);
        if i + 1 < at {
            assert(template[i + 1] == head[i + 1]);
        }
    }
    lemma_placeholder_found(template, 0, at);
    assert(template.take(at) =~= head);
    assert(template.skip(at + 2) =~= tail);
}

proof fn lemma_placeholder_found(template: Seq<char>, from: int, at: int)
    requires
        0 <= from <= at,
        at + 1 < template.len(),
        template[at] == '{' && template[at + 1] == '}',
        forall|i: int|
            from <= i < at ==> !(#[trigger] template[i] == '{' && template[i + 1] == '}'),
    ensures
        placeholder_from(template, from) == Some(at),
    decreases at - from,
{
    if from < at {
        assert(!(template[from] == '{' && template[from + 1] == '}'));
        lemma_placeholder_found(template, from + 1, at);
    }
}

/// A template without a placeholder is left as it is.
pub proof fn law_fill_leaves_other_texts(template: Seq<char>, value: Seq<char>)
    requires
        forall|i: int|
            0 <= i < template.len() - 1 ==> !(#[trigger] template[i] == '{' && template[i + 1]
                == '}'),
    ensures
        filled(template, value) == template,
{
    lemma_no_placeholder(template, 0);
}

proof fn lemma_no_placeholder(template: Seq<char>, from: int)
    requires
        0 <= from,
        forall|i: int|
            0 <= i < template.len() - 1 ==> !(#[trigger] template[i] == '{' && template[i + 1]
                == '}'),
    ensures
        placeholder_from(template, from) is None,
    decreases template.len() - from,
{
    if from + 1 < template.len() {
        assert(!(template[from] == '{' && template[from + 1] == '}'));
        lemma_no_placeholder(template, from + 1);
    }
}

/// A capital of the English alphabet becomes the small letter at the same place in
/// the alphabet; every other character stays.
pub proof fn law_capitals_become_small(text: Seq<char>, i: int)
    requires
        0 <= i < text.len(),
    ensures
        ascii_lowered(text).len() == text.len(),
        'A' <= text[i] <= 'Z' ==> ascii_lowered(text)[i] as int - 'a' as int == text[i] as int
            - 'A' as int,
        !('A' <= text[i] <= 'Z') ==> ascii_lowered(text)[i] == text[i],
{
}

} // verus!
