//! Text as sequences of characters: trimming, decimal numbers, padding and joining.

use vstd::prelude::*;
use vstd::string::*;

verus! {

/// Whether Unicode counts `c` as white space (`White_Space`).
pub open spec fn white_space(c: char) -> bool {
    let u = c as u32;
    ||| 0x09 <= u <= 0x0D
    ||| u == 0x20
    ||| u == 0x85
    ||| u == 0xA0
    ||| u == 0x1680
    ||| 0x2000 <= u <= 0x200A
    ||| u == 0x2028
    ||| u == 0x2029
    ||| u == 0x202F
    ||| u == 0x205F
    ||| u == 0x3000
}

/// `s` without the white space at its start.
pub open spec fn trimmed_start(s: Seq<char>) -> Seq<char>
    decreases s.len(),
{
    if s.len() > 0 && white_space(s.first()) {
        trimmed_start(s.drop_first())
    } else {
        s
    }
}

/// `s` without the white space at its end.
pub open spec fn trimmed_end(s: Seq<char>) -> Seq<char>
    decreases s.len(),
{
    if s.len() > 0 && white_space(s.last()) {
        trimmed_end(s.drop_last())
    } else {
        s
    }
}

/// `s` without the white space at its start and at its end.
pub open spec fn trimmed(s: Seq<char>) -> Seq<char> {
    trimmed_end(trimmed_start(s))
}

/// Tells whether Unicode counts `c` as white space (`White_Space`).
pub fn is_white_space(c: char) -> (r: bool)
    ensures
        r == white_space(c),
{
    let u: u32 = c as u32;
    (0x09 <= u && u <= 0x0D) || u == 0x20 || u == 0x85 || u == 0xA0 || u == 0x1680 || (0x2000 <= u
        && u <= 0x200A) || u == 0x2028 || u == 0x2029 || u == 0x202F || u == 0x205F || u == 0x3000
}

/// Dropping `k` leading white-space characters that are followed by none is `trimmed_start`.
proof fn lemma_trimmed_start(s: Seq<char>, k: int)
    requires
        0 <= k <= s.len(),
        forall|i: int| 0 <= i < k ==> white_space(#[trigger] s[i]),
        k < s.len() ==> !white_space(s[k]),
    ensures
        trimmed_start(s) == s.subrange(k, s.len() as int),
    decreases k,
{
    if k > 0 {
        let rest = s.drop_first();
        assert(forall|i: int| 0 <= i < k - 1 ==> white_space(#[trigger] rest[i]));
        lemma_trimmed_start(rest, k - 1);
    }
}

/// Keeping the first `e` characters, where only white space follows them, is `trimmed_end`.
proof fn lemma_trimmed_end(s: Seq<char>, e: int)
    requires
        0 <= e <= s.len(),
        forall|i: int| e <= i < s.len() ==> white_space(#[trigger] s[i]),
        0 < e ==> !white_space(s[e - 1]),
    ensures
        trimmed_end(s) == s.subrange(0, e),
    decreases s.len() - e,
{
    if e < s.len() {
        lemma_trimmed_end(s.drop_last(), e);
    }
}

/// Removes the white space at both ends of `s`.
pub fn trim(s: &str) -> (r: String)
    ensures
        r@ == trimmed(s@),
{
    let n: usize = s.unicode_len();
    let mut start: usize = 0;
    while start < n && is_white_space(s.get_char(start))
        invariant
            n == s@.len(),
            start <= n,
            forall|i: int| 0 <= i < start ==> white_space(#[trigger] s@[i]),
        decreases n - start,
    {
        start = start + 1;
    }
    let mut end: usize = n;
    while end > start && is_white_space(s.get_char(end - 1))
        invariant
            n == s@.len(),
            start <= end <= n,
            forall|i: int| end <= i < n ==> white_space(#[trigger] s@[i]),
        decreases end,
    {
        end = end - 1;
    }
    proof {
        let tail = s@.subrange(start as int, n as int);
        lemma_trimmed_start(s@, start as int);
        assert(forall|i: int| end - start <= i < tail.len() ==> white_space(#[trigger] tail[i]));
        lemma_trimmed_end(tail, end - start);
    }
    s.substring_char(start, end).to_owned()
}

/// The character that writes the digit `d`.
pub open spec fn digit(d: nat) -> char
    recommends
        d < 10,
{
    seq!['0', '1', '2', '3', '4', '5', '6', '7', '8', '9'][d as int]
}

/// `n` written in decimal, without sign or leading zeros.
pub open spec fn decimal(n: nat) -> Seq<char>
    decreases n,
{
    if n < 10 {
        seq![digit(n)]
    } else {
        decimal(n / 10).push(digit(n % 10))
    }
}

/// The text of one decimal digit.
fn digit_text(d: usize) -> (r: &'static str)
    requires
        d < 10,
    ensures
        r@ == seq![digit(d as nat)],
{
    proof {
        reveal_strlit("0");
        reveal_strlit("1");
        reveal_strlit("2");
        reveal_strlit("3");
        reveal_strlit("4");
        reveal_strlit("5");
        reveal_strlit("6");
        reveal_strlit("7");
        reveal_strlit("8");
        reveal_strlit("9");
    }
    let r = if d == 0 {
        "0"
    } else if d == 1 {
        "1"
    } else if d == 2 {
        "2"
    } else if d == 3 {
        "3"
    } else if d == 4 {
        "4"
    } else if d == 5 {
        "5"
    } else if d == 6 {
        "6"
    } else if d == 7 {
        "7"
    } else if d == 8 {
        "8"
    } else {
        "9"
    };
    r
}

/// Writes `n` in decimal.
pub fn decimal_text(n: usize) -> (r: String)
    ensures
        r@ == decimal(n as nat),
    decreases n,
{
    if n < 10 {
        digit_text(n).to_owned()
    } else {
        let mut r = decimal_text(n / 10);
        r.append(digit_text(n % 10));
        r
    }
}

/// `n` spaces.
pub open spec fn spaces(n: nat) -> Seq<char> {
    Seq::new(n, |i: int| ' ')
}

/// `s`, followed by the spaces that bring it to `width` characters where it has fewer.
pub open spec fn padded_right(s: Seq<char>, width: nat) -> Seq<char> {
    if s.len() >= width {
        s
    } else {
        s + spaces((width - s.len()) as nat)
    }
}

/// `s`, preceded by the spaces that bring it to `width` characters where it has fewer.
pub open spec fn padded_left(s: Seq<char>, width: nat) -> Seq<char> {
    if s.len() >= width {
        s
    } else {
        spaces((width - s.len()) as nat) + s
    }
}

/// Makes a text of `n` spaces.
fn spaces_text(n: usize) -> (r: String)
    ensures
        r@ == spaces(n as nat),
{
    let mut r = String::new();
    let mut i: usize = 0;
    while i < n
        invariant
            i <= n,
            r@ == spaces(i as nat),
        decreases n - i,
    {
        proof {
            reveal_strlit(" ");
        }
        r.append(" ");
        i = i + 1;
    }
    r
}

/// Pads `s` with spaces on its right up to `width` characters.
pub fn pad_right(s: &str, width: usize) -> (r: String)
    ensures
        r@ == padded_right(s@, width as nat),
{
    let n: usize = s.unicode_len();
    let mut r = s.to_owned();
    if n < width {
        let fill = spaces_text(width - n);
        r.append(fill.as_str());
    }
    r
}

/// Pads `s` with spaces on its left up to `width` characters.
pub fn pad_left(s: &str, width: usize) -> (r: String)
    ensures
        r@ == padded_left(s@, width as nat),
{
    let n: usize = s.unicode_len();
    if n < width {
        let mut r = spaces_text(width - n);
        r.append(s);
        r
    } else {
        s.to_owned()
    }
}

/// The parts in order, with `separator` between each two of them.
pub open spec fn joined(parts: Seq<Seq<char>>, separator: Seq<char>) -> Seq<char>
    decreases parts.len(),
{
    if parts.len() == 0 {
        Seq::empty()
    } else if parts.len() == 1 {
        parts[0]
    } else {
        joined(parts.drop_last(), separator) + separator + parts.last()
    }
}

/// The texts that a sequence of strings holds, one for one.
pub open spec fn texts(strings: Seq<String>) -> Seq<Seq<char>> {
    strings.map_values(|s: String| s@)
}

/// Joins the parts with `separator` between each two of them.
pub fn join(parts: &Vec<String>, separator: &str) -> (r: String)
    ensures
        r@ == joined(texts(parts@), separator@),
{
    let mut r = String::new();
    let mut i: usize = 0;
    while i < parts.len()
        invariant
            i <= parts.len(),
            r@ == joined(texts(parts@).take(i as int), separator@),
        decreases parts.len() - i,
    {
        if i > 0 {
            r.append(separator);
        }
        r.append(parts[i].as_str());
        assert(texts(parts@).take(i + 1).drop_last() =~= texts(parts@).take(i as int));
        i = i + 1;
    }
    assert(texts(parts@).take(i as int) =~= texts(parts@));
    r
}

/// The index of the `n`-th dot of `s`, counting from 1, or the length of `s` where it has
/// fewer than `n` dots.
pub open spec fn nth_dot(s: Seq<char>, n: nat) -> int
    recommends
        n >= 1,
    decreases s.len(),
{
    if s.len() == 0 {
        0
    } else if s.first() == '.' && n <= 1 {
        0
    } else if s.first() == '.' {
        1 + nth_dot(s.drop_first(), (n - 1) as nat)
    } else {
        1 + nth_dot(s.drop_first(), n)
    }
}

/// The first `n` of the components that the dots of `s` separate, with their dots.
pub open spec fn leading_components(s: Seq<char>, n: nat) -> Seq<char>
    recommends
        n >= 1,
{
    s.take(nth_dot(s, n))
}

/// Keeps the first three of the components that the dots of `version` separate.
pub fn three_components(version: &str) -> (r: String)
    ensures
        r@ == leading_components(version@, 3),
{
    let n: usize = version.unicode_len();
    let mut i: usize = 0;
    let mut wanted: usize = 3;
    let mut found = false;
    assert(version@.skip(0) =~= version@);
    while i < n && !found
        invariant
            n == version@.len(),
            i <= n,
            1 <= wanted <= 3,
            nth_dot(version@, 3) == i + nth_dot(version@.skip(i as int), wanted as nat),
            found ==> i < n && version@[i as int] == '.' && wanted == 1,
        decreases n - i + (if found { 0int } else { 1int }),
    {
        let c = version.get_char(i);
        assert(version@.skip(i as int).drop_first() =~= version@.skip(i + 1));
        if c == '.' && wanted == 1 {
            found = true;
        } else {
            if c == '.' {
                wanted = wanted - 1;
            }
            i = i + 1;
        }
    }
    assert(nth_dot(version@, 3) == i);
    version.substring_char(0, i).to_owned()
}

/// Whether `c` opens the suffix of a version: the pre-release after `-`, the build after `+`.
pub open spec fn suffix_mark(c: char) -> bool {
    c == '-' || c == '+'
}

/// The index of the first `-` or `+` of `s`, or the length of `s` where it has neither.
pub open spec fn suffix_start(s: Seq<char>) -> int
    decreases s.len(),
{
    if s.len() == 0 || suffix_mark(s.first()) {
        0
    } else {
        1 + suffix_start(s.drop_first())
    }
}

/// What stands before the first `-` or `+` of a version: the version without its pre-release
/// and build suffix.
pub open spec fn release_part(s: Seq<char>) -> Seq<char> {
    s.take(suffix_start(s))
}

/// Drops the pre-release and build suffix of `version`: what stands from its first `-` or
/// `+` on.
pub fn release(version: &str) -> (r: String)
    ensures
        r@ == release_part(version@),
{
    let n: usize = version.unicode_len();
    let mut i: usize = 0;
    let mut found = false;
    assert(version@.skip(0) =~= version@);
    while i < n && !found
        invariant
            n == version@.len(),
            i <= n,
            suffix_start(version@) == i + suffix_start(version@.skip(i as int)),
            found ==> i < n && suffix_mark(version@[i as int]),
        decreases n - i + (if found { 0int } else { 1int }),
    {
        let c = version.get_char(i);
        assert(version@.skip(i as int).drop_first() =~= version@.skip(i + 1));
        if c == '-' || c == '+' {
            found = true;
        } else {
            i = i + 1;
        }
    }
    assert(suffix_start(version@) == i);
    version.substring_char(0, i).to_owned()
}

/// The text that `s` becomes in lower case.
pub uninterp spec fn lowercase(s: Seq<char>) -> Seq<char>;

/// Calls `str::to_lowercase`.
///
/// Trusted: the outcome depends on the text alone, and is the one that `lowercase` names.
#[verifier::external_body]
pub(crate) fn to_lowercase(s: &str) -> (r: String)
    ensures
        r@ == lowercase(s@),
{
    s.to_lowercase()
}

/// Calls `String::from_utf8`.
///
/// Trusted: the text that the bytes encode where they are valid UTF-8, else `None`.
#[verifier::external_body]
pub(crate) fn text_from_utf8(bytes: Vec<u8>) -> (r: Option<String>)
    ensures
        match r {
            Some(text) => vstd::utf8::valid_utf8(bytes@) && text@ == vstd::utf8::decode_utf8(
                bytes@,
            ),
            None => !vstd::utf8::valid_utf8(bytes@),
        },
{
    String::from_utf8(bytes).ok()
}

} // verus!
