//! Plain text: finding, cutting, trimming, comparing and writing numbers.
use vstd::prelude::*;
use vstd::string::*;
use vstd::utf8::*;

verus! {

/// Where `c` first stands in `s`, or the length of `s` where it does not occur.
pub open spec fn position(s: Seq<char>, c: char) -> int
    decreases s.len(),
{
    if s.len() == 0 || s[0] == c {
        0
    } else {
        1 + position(s.drop_first(), c)
    }
}

/// The pieces of `s` between the occurrences of `separator`.
pub open spec fn split(s: Seq<char>, separator: char) -> Seq<Seq<char>>
    decreases s.len(),
{
    let cut = position(s, separator);
    if 0 <= cut < s.len() {
        seq![s.take(cut)] + split(s.skip(cut + 1), separator)
    } else {
        seq![s]
    }
}

/// The characters with the Unicode property `White_Space`.
pub open spec fn is_white_space(c: char) -> bool {
    ||| '\u{9}' <= c <= '\u{d}'
    ||| c == ' '
    ||| c == '\u{85}'
    ||| c == '\u{a0}'
    ||| c == '\u{1680}'
    ||| '\u{2000}' <= c <= '\u{200a}'
    ||| c == '\u{2028}'
    ||| c == '\u{2029}'
    ||| c == '\u{202f}'
    ||| c == '\u{205f}'
    ||| c == '\u{3000}'
}

/// `s` without its leading white space.
pub open spec fn trim_start(s: Seq<char>) -> Seq<char>
    decreases s.len(),
{
    if s.len() > 0 && is_white_space(s[0]) {
        trim_start(s.drop_first())
    } else {
        s
    }
}

/// `s` without its trailing white space.
pub open spec fn trim_end(s: Seq<char>) -> Seq<char>
    decreases s.len(),
{
    if s.len() > 0 && is_white_space(s.last()) {
        trim_end(s.drop_last())
    } else {
        s
    }
}

/// `s` without the white space at either end.
pub open spec fn trimmed(s: Seq<char>) -> Seq<char> {
    trim_end(trim_start(s))
}

/// `c`, or the lower case letter where `c` is one of the letters `A` to `Z`.
pub open spec fn ascii_lower(c: char) -> char {
    if 'A' <= c <= 'Z' {
        (c as u32 + 32) as char
    } else {
        c
    }
}

/// `s` with each ASCII letter in lower case.
pub open spec fn ascii_lowercase(s: Seq<char>) -> Seq<char> {
    s.map_values(|c: char| ascii_lower(c))
}

/// The decimal digit that stands for `d`.
pub open spec fn digit(d: nat) -> char {
    (d + '0' as nat) as char
}

/// `n` in decimal, without leading zeros.
pub open spec fn decimal(n: nat) -> Seq<char>
    decreases n,
{
    if n < 10 {
        seq![digit(n)]
    } else {
        decimal(n / 10).push(digit(n % 10))
    }
}

/// A number in decimal is made of digits.
pub proof fn decimal_is_digits(n: nat)
    ensures
        decimal(n).len() > 0,
        forall|i: int| 0 <= i < decimal(n).len() ==> '0' <= #[trigger] decimal(n)[i] <= '9',
    decreases n,
{
    if n >= 10 {
        decimal_is_digits(n / 10);
    }
}

/// Different numbers are different in decimal.
pub proof fn decimal_tells_apart(a: nat, b: nat)
    requires
        decimal(a) == decimal(b),
    ensures
        a == b,
    decreases a,
{
    decimal_is_digits(a / 10);
    decimal_is_digits(b / 10);
    assert(decimal(a).last() == digit(a % 10));
    assert(decimal(b).last() == digit(b % 10));
    assert(digit(a % 10) as nat == a % 10 + 48);
    assert(digit(b % 10) as nat == b % 10 + 48);
    if a >= 10 && b >= 10 {
        assert(decimal(a).drop_last() == decimal(a / 10));
        assert(decimal(b).drop_last() == decimal(b / 10));
        decimal_tells_apart(a / 10, b / 10);
    } else if a >= 10 {
        assert(decimal(b).len() == 1);
    } else if b >= 10 {
        assert(decimal(a).len() == 1);
    }
}

/// The characters of `s`, one by one.
pub(crate) fn characters(s: &str) -> (chars: Vec<char>)
    ensures
        chars@ == s@,
{
    let mut chars: Vec<char> = Vec::new();
    for c in it: s.chars()
        invariant
            it.seq() == s@,
            chars@ == s@.take(it.index() as int),
    {
        assert(s@.take(it.index() + 1) == s@.take(it.index() as int).push(c));
        chars.push(c);
    }
    assert(s@.take(s@.len() as int) == s@);
    chars
}

/// Two texts with the same UTF-8 bytes are the same text.
pub proof fn utf8_bytes_determine_text(a: Seq<char>, b: Seq<char>)
    ensures
        encode_utf8(a) == encode_utf8(b) <==> a == b,
{
    encode_utf8_decode_utf8(a);
    encode_utf8_decode_utf8(b);
}

/// Whether two texts are the same.
pub(crate) fn same(a: &str, b: &str) -> (res: bool)
    ensures
        res == (a@ == b@),
{
    let left = a.as_bytes();
    let right = b.as_bytes();
    proof {
        utf8_bytes_determine_text(a@, b@);
    }
    if left.len() != right.len() {
        return false;
    }
    let mut i: usize = 0;
    while i < left.len()
        invariant
            left@ == encode_utf8(a@),
            right@ == encode_utf8(b@),
            left@.len() == right@.len(),
            i <= left@.len(),
            forall|j: int| 0 <= j < i ==> left@[j] == right@[j],
            encode_utf8(a@) == encode_utf8(b@) <==> a@ == b@,
        decreases left@.len() - i,
    {
        if left[i] != right[i] {
            return false;
        }
        i += 1;
    }
    assert(left@ == right@);
    true
}

/// Whether `s` begins with `prefix`.
pub(crate) fn starts_with(s: &str, prefix: &str) -> (res: bool)
    ensures
        res == prefix@.is_prefix_of(s@),
{
    let length: usize = prefix.unicode_len();
    if s.unicode_len() < length {
        return false;
    }
    let head = s.substring_char(0, length);
    let res = same(head, prefix);
    proof {
        if prefix@.is_prefix_of(s@) {
            assert(head@ == prefix@);
        }
    }
    res
}

/// The first place of `c` in `chars` from `start` on and before `end`, or `end`.
pub(crate) fn find(chars: &Vec<char>, start: usize, end: usize, c: char) -> (at: usize)
    requires
        start <= end <= chars@.len(),
    ensures
        start <= at <= end,
        at - start == position(chars@.subrange(start as int, end as int), c),
{
    let ghost whole = chars@.subrange(start as int, end as int);
    let mut i: usize = start;
    while i < end && chars[i] != c
        invariant
            start <= i <= end <= chars@.len(),
            whole == chars@.subrange(start as int, end as int),
            position(whole, c) == i - start + position(
                chars@.subrange(i as int, end as int),
                c,
            ),
        decreases end - i,
    {
        assert(chars@.subrange(i as int, end as int).drop_first() == chars@.subrange(
            i + 1,
            end as int,
        ));
        i += 1;
    }
    i
}

/// `position` is the first place of `c` in `s`, and the length of `s` where there is none.
pub proof fn position_bounds(s: Seq<char>, c: char)
    ensures
        0 <= position(s, c) <= s.len(),
        position(s, c) < s.len() <==> s.contains(c),
        position(s, c) < s.len() ==> s[position(s, c)] == c,
        forall|i: int| 0 <= i < position(s, c) ==> s[i] != c,
    decreases s.len(),
{
    if s.len() > 0 && s[0] != c {
        let rest = s.drop_first();
        position_bounds(rest, c);
        assert forall|i: int| 0 <= i < position(s, c) implies s[i] != c by {
            if i > 0 {
                assert(rest[i - 1] == s[i]);
            }
        }
        if s.contains(c) {
            let i = choose|i: int| 0 <= i < s.len() && s[i] == c;
            assert(rest[i - 1] == c);
        }
    }
}

/// The first `c` of `before` followed by `c` and `after` is the one in between, where
/// `before` holds none.
pub proof fn position_behind(before: Seq<char>, c: char, after: Seq<char>)
    requires
        !before.contains(c),
    ensures
        position(before.push(c) + after, c) == before.len(),
{
    let whole = before.push(c) + after;
    position_bounds(whole, c);
    assert(whole[before.len() as int] == c);
    let at = position(whole, c);
    if at < before.len() {
        assert(before[at] == whole[at]);
    }
}

/// What has no separator in it is one piece.
pub proof fn split_nothing(s: Seq<char>, separator: char)
    requires
        !s.contains(separator),
    ensures
        split(s, separator) == seq![s],
{
    position_bounds(s, separator);
}

/// The pieces of two texts with a separator between them are the pieces of the one and then
/// those of the other.
pub proof fn split_joined(before: Seq<char>, separator: char, after: Seq<char>)
    ensures
        split(before.push(separator) + after, separator) == split(before, separator) + split(
            after,
            separator,
        ),
    decreases before.len(),
{
    let whole = before.push(separator) + after;
    position_bounds(before, separator);
    position_bounds(whole, separator);
    let cut = position(before, separator);
    if cut < before.len() {
        let head = before.take(cut);
        let tail = before.skip(cut + 1);
        assert(!head.contains(separator));
        assert(whole == head.push(separator) + (tail.push(separator) + after));
        position_behind(head, separator, tail.push(separator) + after);
        assert(whole.take(cut) == head);
        assert(whole.skip(cut + 1) == tail.push(separator) + after);
        split_joined(tail, separator, after);
        assert(split(whole, separator) == seq![head] + (split(tail, separator) + split(
            after,
            separator,
        )));
    } else {
        assert(!before.contains(separator));
        position_behind(before, separator, after);
        assert(whole.take(before.len() as int) == before);
        assert(whole.skip(before.len() as int + 1) == after);
    }
}

/// Lower case keeps white space and creates none.
proof fn lower_keeps_white_space(c: char)
    ensures
        is_white_space(ascii_lower(c)) == is_white_space(c),
        ascii_lower(ascii_lower(c)) == ascii_lower(c),
        !('A' <= ascii_lower(c) <= 'Z'),
{
}

/// Lower case and leading white space have nothing to do with each other.
proof fn trim_start_in_lower_case(s: Seq<char>)
    ensures
        trim_start(ascii_lowercase(s)) == ascii_lowercase(trim_start(s)),
    decreases s.len(),
{
    if s.len() > 0 {
        lower_keeps_white_space(s[0]);
        if is_white_space(s[0]) {
            assert(ascii_lowercase(s).drop_first() == ascii_lowercase(s.drop_first()));
            trim_start_in_lower_case(s.drop_first());
        }
    }
}

/// Lower case and trailing white space have nothing to do with each other.
proof fn trim_end_in_lower_case(s: Seq<char>)
    ensures
        trim_end(ascii_lowercase(s)) == ascii_lowercase(trim_end(s)),
    decreases s.len(),
{
    if s.len() > 0 {
        lower_keeps_white_space(s.last());
        if is_white_space(s.last()) {
            assert(ascii_lowercase(s).drop_last() == ascii_lowercase(s.drop_last()));
            trim_end_in_lower_case(s.drop_last());
        }
    }
}

/// It makes no difference whether a text is trimmed before or after it is put in lower case.
pub proof fn trimmed_in_lower_case(s: Seq<char>)
    ensures
        trimmed(ascii_lowercase(s)) == ascii_lowercase(trimmed(s)),
        ascii_lowercase(ascii_lowercase(s)) == ascii_lowercase(s),
        forall|i: int|
            0 <= i < s.len() ==> !('A' <= #[trigger] ascii_lowercase(s)[i] <= 'Z'),
{
    trim_start_in_lower_case(s);
    trim_end_in_lower_case(trim_start(s));
    assert forall|i: int| 0 <= i < s.len() implies {
        &&& ascii_lowercase(ascii_lowercase(s))[i] == ascii_lowercase(s)[i]
        &&& !('A' <= #[trigger] ascii_lowercase(s)[i] <= 'Z')
    } by {
        lower_keeps_white_space(s[i]);
    }
    assert(ascii_lowercase(ascii_lowercase(s)) == ascii_lowercase(s));
}

/// What is left without leading white space.
proof fn trim_start_leaves(s: Seq<char>)
    ensures
        trim_start(s).len() <= s.len(),
        trim_start(s) == s.skip(s.len() - trim_start(s).len()),
        trim_start(s).len() > 0 ==> !is_white_space(trim_start(s)[0]),
    decreases s.len(),
{
    if s.len() > 0 && is_white_space(s[0]) {
        trim_start_leaves(s.drop_first());
    }
    assert(trim_start(s) == s.skip(s.len() - trim_start(s).len()));
}

/// What is left without trailing white space.
proof fn trim_end_leaves(s: Seq<char>)
    ensures
        trim_end(s).is_prefix_of(s),
        trim_end(s).len() > 0 ==> !is_white_space(trim_end(s).last()),
    decreases s.len(),
{
    if s.len() > 0 && is_white_space(s.last()) {
        trim_end_leaves(s.drop_last());
    }
}

/// Trimming leaves a stretch of the text, which is not trimmed any further.
pub proof fn trimmed_leaves(s: Seq<char>)
    ensures
        trimmed(trimmed(s)) == trimmed(s),
        forall|c: char| !s.contains(c) ==> !(#[trigger] trimmed(s).contains(c)),
{
    let tail = trim_start(s);
    let part = trim_end(tail);
    trim_start_leaves(s);
    trim_end_leaves(tail);
    if part.len() > 0 {
        assert(part[0] == tail[0]);
    }
    assert forall|c: char| !s.contains(c) implies !(#[trigger] part.contains(c)) by {
        if part.contains(c) {
            let i = choose|i: int| 0 <= i < part.len() && part[i] == c;
            assert(s[s.len() - tail.len() + i] == c);
        }
    }
}

/// A character that is no letter stands at the same place in lower case.
pub proof fn position_in_lower_case(s: Seq<char>, c: char)
    requires
        !('A' <= c <= 'Z'),
        !('a' <= c <= 'z'),
    ensures
        position(ascii_lowercase(s), c) == position(s, c),
    decreases s.len(),
{
    if s.len() > 0 && s[0] != c {
        assert(ascii_lowercase(s).drop_first() == ascii_lowercase(s.drop_first()));
        position_in_lower_case(s.drop_first(), c);
    }
}

/// Whether `c` has the Unicode property `White_Space`.
fn white_space(c: char) -> (res: bool)
    ensures
        res == is_white_space(c),
{
    ('\u{9}' <= c && c <= '\u{d}') || c == ' ' || c == '\u{85}' || c == '\u{a0}' || c
        == '\u{1680}' || ('\u{2000}' <= c && c <= '\u{200a}') || c == '\u{2028}' || c == '\u{2029}'
        || c == '\u{202f}' || c == '\u{205f}' || c == '\u{3000}'
}

/// `s` without the white space at either end.
pub(crate) fn trim(s: &str) -> (res: &str)
    ensures
        res@ == trimmed(s@),
{
    let chars = characters(s);
    let ghost whole = s@;
    let length: usize = chars.len();
    let mut start: usize = 0;
    assert(whole.skip(0) == whole);
    while start < length && white_space(chars[start])
        invariant
            whole == chars@,
            length == whole.len(),
            start <= length,
            trim_start(whole) == trim_start(whole.skip(start as int)),
        decreases length - start,
    {
        assert(whole.skip(start as int).drop_first() == whole.skip(start + 1));
        start += 1;
    }
    let ghost tail = whole.skip(start as int);
    assert(trim_start(whole) == tail);
    let mut end: usize = length;
    assert(whole.subrange(start as int, length as int) == tail);
    while end > start && white_space(chars[end - 1])
        invariant
            whole == chars@,
            start <= end <= length == whole.len(),
            trim_end(tail) == trim_end(whole.subrange(start as int, end as int)),
        decreases end,
    {
        let ghost part = whole.subrange(start as int, end as int);
        assert(part.drop_last() == whole.subrange(start as int, end - 1));
        end -= 1;
    }
    s.substring_char(start, end)
}

/// `n` in decimal.
pub fn decimal_text(n: u128) -> (res: String)
    ensures
        res@ == decimal(n as nat),
    decreases n,
{
    if n < 10 {
        digit_text(n).to_owned()
    } else {
        let mut res = decimal_text(n / 10);
        res.append(digit_text(n % 10));
        assert(res@ == decimal(n as nat));
        res
    }
}

/// The decimal digit that stands for `d`.
fn digit_text(d: u128) -> (res: &'static str)
    requires
        d < 10,
    ensures
        res@ == seq![digit(d as nat)],
{
    proof {
        reveal_strlit("0");
        reveal_strlit("1");
        reveal_strlit("2");
        reveal_strlit("3");
        reveal_strlit("4");
        reveal_strlit("5");
        reveal_strlit("6");
        reveal_strlit("7");
        reveal_strlit("8");
        reveal_strlit("9");
    }
    let res = match d {
        0 => "0",
        1 => "1",
        2 => "2",
        3 => "3",
        4 => "4",
        5 => "5",
        6 => "6",
        7 => "7",
        8 => "8",
        _ => "9",
    };
    assert(res@ == seq![digit(d as nat)]);
    res
}

/// `str::to_ascii_lowercase`: a copy in which each of the letters `A` to `Z` is
/// replaced by its lower case letter and every other character is kept.
pub assume_specification[ str::to_ascii_lowercase ](s: &str) -> (res: String)
    ensures
        res@ == ascii_lowercase(s@),
;

/// The error of `String::from_utf8`.
#[verifier::external_type_specification]
#[verifier::external_body]
pub struct ExFromUtf8Error(std::string::FromUtf8Error);

/// `String::from_utf8`: the text whose UTF-8 encoding `bytes` is, or an error where
/// `bytes` is not valid UTF-8.
pub assume_specification[ String::from_utf8 ](bytes: Vec<u8>) -> (res: Result<
    String,
    std::string::FromUtf8Error,
>)
    ensures
        res is Ok <==> valid_utf8(bytes@),
        res matches Ok(s) ==> s@ == decode_utf8(bytes@),
;

/// What `String::from_utf8_lossy` makes of `bytes`.
pub uninterp spec fn utf8_lossy(bytes: Seq<u8>) -> Seq<char>;

/// `String::from_utf8_lossy`: the text that `bytes` encodes, with U+FFFD in place of
/// what is not valid UTF-8. Which stretches one U+FFFD stands for is left to the name;
/// of valid UTF-8 the text itself comes back.
#[verifier::external_body]
pub(crate) fn from_utf8_lossy(bytes: &[u8]) -> (res: String)
    ensures
        res@ == utf8_lossy(bytes@),
        valid_utf8(bytes@) ==> res@ == decode_utf8(bytes@),
{
    String::from_utf8_lossy(bytes).into_owned()
}

/// White space is what Unicode says it is, by code point.
pub proof fn white_space_by_code_point(c: char)
    ensures
        is_white_space(c) <==> ({
            let n = c as u32;
            ||| 0x09 <= n <= 0x0d
            ||| n == 0x20
            ||| n == 0x85
            ||| n == 0xa0
            ||| n == 0x1680
            ||| 0x2000 <= n <= 0x200a
            ||| n == 0x2028
            ||| n == 0x2029
            ||| n == 0x202f
            ||| n == 0x205f
            ||| n == 0x3000
        }),
{
}

/// Leading white space is gone, however much there is.
proof fn trim_start_behind(before: Seq<char>, rest: Seq<char>)
    requires
        forall|i: int| 0 <= i < before.len() ==> is_white_space(#[trigger] before[i]),
    ensures
        trim_start(before + rest) == trim_start(rest),
    decreases before.len(),
{
    if before.len() == 0 {
        assert(before + rest == rest);
    } else {
        assert(is_white_space(before[0]));
        assert((before + rest)[0] == before[0]);
        assert((before + rest).drop_first() == before.drop_first() + rest);
        trim_start_behind(before.drop_first(), rest);
    }
}

/// Trailing white space is gone, however much there is.
proof fn trim_end_before(rest: Seq<char>, after: Seq<char>)
    requires
        forall|i: int| 0 <= i < after.len() ==> is_white_space(#[trigger] after[i]),
    ensures
        trim_end(rest + after) == trim_end(rest),
    decreases after.len(),
{
    if after.len() == 0 {
        assert(rest + after == rest);
    } else {
        assert(is_white_space(after.last()));
        assert((rest + after).last() == after.last());
        assert((rest + after).drop_last() == rest + after.drop_last());
        trim_end_before(rest, after.drop_last());
    }
}

/// Trimming takes the white space around a text away and nothing of the text.
pub proof fn trimmed_is_the_core(before: Seq<char>, core: Seq<char>, after: Seq<char>)
    requires
        forall|i: int| 0 <= i < before.len() ==> is_white_space(#[trigger] before[i]),
        forall|i: int| 0 <= i < after.len() ==> is_white_space(#[trigger] after[i]),
        core.len() > 0 ==> !is_white_space(core[0]) && !is_white_space(core.last()),
    ensures
        trimmed(before + core + after) == core,
{
    assert(before + core + after == before + (core + after));
    trim_start_behind(before, core + after);
    if core.len() == 0 {
        assert(core + after == after);
        assert(after + core == after);
        trim_start_behind(after, core);
    } else {
        assert((core + after)[0] == core[0]);
        trim_end_before(core, after);
    }
}

/// In lower case a text has the same length, the letters `A` to `Z` are moved to `a` to `z`,
/// and every other character stays.
pub proof fn lower_case_by_code_point(s: Seq<char>)
    ensures
        ascii_lowercase(s).len() == s.len(),
        forall|i: int|
            0 <= i < s.len() ==> (#[trigger] ascii_lowercase(s)[i]) as int == if 65 <= s[i] as int
                && s[i] as int <= 90 {
                s[i] as int + 32
            } else {
                s[i] as int
            },
{
}

/// A digit that is appended to a number makes it ten times as large and adds itself.
pub proof fn decimal_appends(n: nat, d: nat)
    requires
        d < 10,
    ensures
        decimal(d).len() == 1,
        decimal(d)[0] as int == 48 + d,
        n > 0 ==> decimal(10 * n + d) == decimal(n) + decimal(d),
{
    if n > 0 {
        assert((10 * n + d) / 10 == n);
        assert((10 * n + d) % 10 == d);
        assert(decimal(10 * n + d) == decimal(n).push(digit(d)));
    }
}

} // verus!
