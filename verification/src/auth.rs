//! The shared secret: where a request presents it, and when it is let through.
use axum::http::{HeaderMap, HeaderValue, Uri};
use vstd::prelude::*;
use vstd::string::*;
use vstd::utf8::encode_utf8;
use crate::headers::{field, field_text, query, target_query};
use crate::reply::{refusal_answer, text_answer, AppError, Refusal, UNAUTHORIZED};
use crate::text::{
    ascii_lowercase, characters, find, position, position_behind, position_bounds, same, split,
    split_joined, split_nothing, utf8_bytes_determine_text,
};

verus! {

/// What `pair` gives to `key`, where it is of the form `key=value`.
pub open spec fn pair_value(pair: Seq<char>, key: Seq<char>) -> Option<Seq<char>> {
    let cut = position(pair, '=');
    if cut < pair.len() && pair.take(cut) == key {
        Some(pair.skip(cut + 1))
    } else {
        None
    }
}

/// What the first of the pairs that gives something to `key` gives to it.
pub open spec fn first_value(pairs: Seq<Seq<char>>, key: Seq<char>) -> Option<Seq<char>>
    decreases pairs.len(),
{
    if pairs.len() == 0 {
        None
    } else if pair_value(pairs[0], key) is Some {
        pair_value(pairs[0], key)
    } else {
        first_value(pairs.drop_first(), key)
    }
}

/// The parameter `key` of a query, as it stands there.
pub open spec fn query_value(query: Option<Seq<char>>, key: Seq<char>) -> Option<Seq<char>> {
    match query {
        Some(query) => first_value(split(query, '&'), key),
        None => None,
    }
}

/// The view of an optional text.
pub open spec fn text_of(text: Option<String>) -> Option<Seq<char>> {
    match text {
        Some(text) => Some(text@),
        None => None,
    }
}

/// The view of an optional borrowed text.
pub open spec fn str_of(text: Option<&str>) -> Option<Seq<char>> {
    match text {
        Some(text) => Some(text@),
        None => None,
    }
}

/// The parameter `key` of a query, as it stands there.
pub fn query_param_in(query: Option<&str>, key: &str) -> (res: Option<String>)
    ensures
        text_of(res) == query_value(str_of(query), key@),
        query is None ==> res is None,
        query matches Some(text) ==> match res {
            Some(value) => query_value(Some(text@), key@) == Some(value@),
            None => query_value(Some(text@), key@) is None,
        },
{
    let text = match query {
        Some(text) => text,
        None => {
            return None;
        },
    };
    let chars = characters(text);
    let length: usize = chars.len();
    let mut start: usize = 0;
    assert(chars@.skip(0) == chars@);
    loop
        invariant
            query == Some(text),
            chars@ == text@,
            length == chars@.len(),
            start <= length,
            first_value(split(text@, '&'), key@) == first_value(
                split(text@.skip(start as int), '&'),
                key@,
            ),
        decreases length - start,
    {
        let ghost rest = text@.skip(start as int);
        let end: usize = find(&chars, start, length, '&');
        let cut: usize = find(&chars, start, end, '=');
        let ghost pair = text@.subrange(start as int, end as int);
        let name = text.substring_char(start, cut);
        proof {
            assert(chars@.subrange(start as int, length as int) == rest);
            assert(rest.take(end - start) == pair);
            assert(pair.take(cut - start) == name@);
            let pairs = split(rest, '&');
            if end < length {
                assert(rest.skip(end - start + 1) == text@.skip(end + 1));
                assert(pairs.drop_first() == split(text@.skip(end + 1), '&'));
            } else {
                assert(pair == rest);
                assert(pairs.drop_first() == Seq::<Seq<char>>::empty());
                assert(first_value(pairs.drop_first(), key@) is None);
            }
            assert(pairs[0] == pair);
        }
        if cut < end && same(name, key) {
            let value = text.substring_char(cut + 1, end);
            assert(pair.skip(cut - start + 1) == value@);
            return Some(value.to_owned());
        }
        if end == length {
            return None;
        }
        start = end + 1;
    }
}

/// The parameter `key` of the query of a request target, as it stands there.
pub fn query_param(uri: &Uri, key: &str) -> (res: Option<String>)
    ensures
        text_of(res) == query_value(target_query(*uri), key@),
        match res {
            Some(value) => query_value(target_query(*uri), key@) == Some(value@),
            None => query_value(target_query(*uri), key@) is None,
        },
{
    query_param_in(query(uri), key)
}

/// Whether the presented token is the expected one. Length still leaks, which is fine for a
/// LAN shared secret.
pub fn tokens_match(presented: &str, expected: &str) -> (res: bool)
    ensures
        res == (presented@ == expected@),
{
    proof {
        utf8_bytes_determine_text(presented@, expected@);
    }
    let left = presented.as_bytes();
    let right = expected.as_bytes();
    if left.len() != right.len() {
        return false;
    }
    let mut difference: u8 = 0;
    let mut i: usize = 0;
    while i < left.len()
        invariant
            left@ == encode_utf8(presented@),
            right@ == encode_utf8(expected@),
            left@.len() == right@.len(),
            i <= left@.len(),
            difference == 0 <==> (forall|j: int| 0 <= j < i ==> left@[j] == right@[j]),
        decreases left@.len() - i,
    {
        let a: u8 = left[i];
        let b: u8 = right[i];
        let before: u8 = difference;
        assert(before | (a ^ b) == 0 <==> before == 0 && a == b) by (bit_vector);
        difference = before | (a ^ b);
        i += 1;
    }
    proof {
        if difference == 0 {
            assert(left@ == right@);
        }
    }
    difference == 0
}

/// The header field in which a token is presented.
pub const TOKEN_HEADER: &'static str = "x-clipd-token";

/// The token that a request presents: the text of the header field, and failing that the
/// query parameter.
pub open spec fn presented(header: Option<Seq<char>>, query: Option<Seq<char>>) -> Option<
    Seq<char>,
> {
    match header {
        Some(token) => Some(token),
        None => query_value(query, "token"@),
    }
}

/// Whether a request that presents this token is let through. Where none is expected, every
/// request is.
pub open spec fn let_through(expected: Option<Seq<char>>, presented: Option<Seq<char>>) -> bool {
    match expected {
        None => true,
        Some(secret) => presented == Some(secret),
    }
}

/// The refusal for want of the right token.
pub open spec fn unauthorized() -> Refusal {
    Refusal { status: UNAUTHORIZED, message: "bad or missing token"@ }
}

/// Lets a request through that presents this token, or refuses it.
pub fn check_token(expected: Option<&str>, presented: Option<&str>) -> (res: Result<
    (),
    AppError,
>)
    ensures
        res is Ok <==> let_through(str_of(expected), str_of(presented)),
        res matches Err(err) ==> err@ == unauthorized(),
        expected is None ==> res is Ok,
        expected matches Some(secret) ==> (res is Ok <==> (presented matches Some(token)
            && token@ == secret@)),
        res matches Err(err) ==> err.status == 401 && err.message@ == "bad or missing token"@,
{
    let secret = match expected {
        None => {
            return Ok(());
        },
        Some(secret) => secret,
    };
    match presented {
        Some(token) if tokens_match(token, secret) => Ok(()),
        _ => Err(AppError::new(UNAUTHORIZED, "bad or missing token".to_owned())),
    }
}

/// How the server was started.
pub struct AppState {
    /// The shared secret, where one is required.
    pub token: Option<String>,
    /// Whether a banner is posted on each write.
    pub notify: bool,
}

impl AppState {
    /// Lets a request through, or refuses it. This comes before every route.
    pub fn authorize(&self, headers: &HeaderMap<HeaderValue>, uri: &Uri) -> (res: Result<
        (),
        AppError,
    >)
        ensures
            res is Ok <==> let_through(
                text_of(self.token),
                presented(field_text(*headers, TOKEN_HEADER@), target_query(*uri)),
            ),
            res matches Err(err) ==> err@ == unauthorized(),
            self.token is None ==> res is Ok,
            self.token matches Some(secret) ==> (res is Ok <==> match field_text(
                *headers,
                "x-clipd-token"@,
            ) {
                Some(token) => token == secret@,
                None => query_value(target_query(*uri), "token"@) == Some(secret@),
            }),
            res matches Err(err) ==> err.status == 401 && err.message@
                == "bad or missing token"@,
    {
        let expected = match &self.token {
            None => {
                return Ok(());
            },
            Some(token) => token.as_str(),
        };
        proof {
            reveal_strlit("x-clipd-token");
            assert(ascii_lowercase(TOKEN_HEADER@) == TOKEN_HEADER@);
        }
        match field(headers, TOKEN_HEADER) {
            Some(token) => check_token(Some(expected), Some(token)),
            None => match query_param(uri, "token") {
                Some(token) => check_token(Some(expected), Some(token.as_str())),
                None => check_token(Some(expected), None),
            },
        }
    }
}

/// Where no secret is set, every request is let through.
pub proof fn open_without_secret(presented: Option<Seq<char>>)
    ensures
        let_through(None, presented),
{
}

/// Where a secret is set, a request is let through exactly if it presents the secret, in the
/// header field, or in the query where it has no such field. What the query says beside a
/// header field makes no difference.
pub proof fn only_the_secret_opens(
    secret: Seq<char>,
    header: Option<Seq<char>>,
    query: Option<Seq<char>>,
)
    ensures
        let_through(Some(secret), presented(header, query)) <==> header == Some(secret)
            || header is None && query_value(query, "token"@) == Some(secret),
{
}

/// A key gets its value from the first pairs, and failing that from the others.
proof fn first_value_behind(before: Seq<Seq<char>>, after: Seq<Seq<char>>, key: Seq<char>)
    ensures
        first_value(before + after, key) == if first_value(before, key) is Some {
            first_value(before, key)
        } else {
            first_value(after, key)
        },
    decreases before.len(),
{
    if before.len() == 0 {
        assert(before + after == after);
    } else {
        assert((before + after).drop_first() == before.drop_first() + after);
        first_value_behind(before.drop_first(), after, key);
    }
}

/// A pair of a key and a value gives the value to the key.
proof fn pair_gives_value(key: Seq<char>, value: Seq<char>)
    requires
        !key.contains('='),
    ensures
        pair_value(key.push('=') + value, key) == Some(value),
{
    let pair = key.push('=') + value;
    position_behind(key, '=', value);
    assert(pair.take(key.len() as int) == key);
    assert(pair.skip(key.len() as int + 1) == value);
}

/// A parameter that is appended to a query is found there, whatever else the query holds,
/// unless the query gives the key a value already, which then counts.
pub proof fn appended_parameter_is_found(query: Seq<char>, key: Seq<char>, value: Seq<char>)
    requires
        !key.contains('='),
        !key.contains('&'),
        !value.contains('&'),
    ensures
        query_value(Some(query.push('&') + (key.push('=') + value)), key) == if query_value(
            Some(query),
            key,
        ) is Some {
            query_value(Some(query), key)
        } else {
            Some(value)
        },
{
    let pair = key.push('=') + value;
    assert(!pair.contains('&'));
    split_joined(query, '&', pair);
    split_nothing(pair, '&');
    first_value_behind(split(query, '&'), seq![pair], key);
    pair_gives_value(key, value);
}

/// The secret opens when it is appended to the query, as it stands, behind `&token=`, unless
/// the query presents another token before that.
pub proof fn appended_token_opens(secret: Seq<char>, query: Seq<char>)
    requires
        !secret.contains('&'),
        query_value(Some(query), "token"@) matches Some(token) ==> token == secret,
    ensures
        let_through(Some(secret), presented(None, Some(query + "&token="@ + secret))),
{
    reveal_strlit("token");
    reveal_strlit("&token=");
    assert("&token="@ == seq!['&'] + "token"@.push('='));
    appended_parameter_is_found(query, "token"@, secret);
    assert(query + "&token="@ + secret == query.push('&') + ("token"@.push('=') + secret));
}

/// A request without the right token is answered with status 401 and one line.
pub proof fn unauthorized_is_answered()
    ensures
        refusal_answer(unauthorized()) == text_answer(UNAUTHORIZED, "bad or missing token\n"@),
{
    reveal_strlit("bad or missing token");
    reveal_strlit("bad or missing token\n");
    reveal_strlit("\n");
    assert("bad or missing token"@ + "\n"@ == "bad or missing token\n"@);
}

/// A query in which `key=` stands at the start of no pair gives the key nothing.
pub proof fn absent_parameter_is_not_found(query: Seq<char>, key: Seq<char>)
    requires
        forall|i: int, e: int|
            0 <= i && e == i + key.len() && e < query.len() && (i == 0 || query[i - 1] == '&')
                && #[trigger] query.subrange(i, e) == key ==> query[e] != '=',
    ensures
        query_value(Some(query), key) is None,
        query_value(None, key) is None,
    decreases query.len(),
{
    let pairs = split(query, '&');
    let cut = position(query, '&');
    position_bounds(query, '&');
    let pair = query.take(cut);
    assert(query.take(query.len() as int) == query);
    assert(pairs[0] == pair);
    let equals = position(pair, '=');
    position_bounds(pair, '=');
    assert(pair_value(pair, key) is None) by {
        if equals < pair.len() && pair.take(equals) == key {
            assert(query.subrange(0, equals) == key);
            assert(query[equals] == pair[equals]);
        }
    }
    if cut < query.len() {
        let rest = query.skip(cut + 1);
        assert(pairs.drop_first() == split(rest, '&'));
        assert forall|i: int, e: int|
            0 <= i && e == i + key.len() && e < rest.len() && (i == 0 || rest[i - 1] == '&')
                && #[trigger] rest.subrange(i, e) == key implies rest[e] != '=' by {
            assert(query.subrange(i + cut + 1, e + cut + 1) == rest.subrange(i, e));
            assert(query[i + cut] == '&');
            assert(query[e + cut + 1] == rest[e]);
        }
        absent_parameter_is_not_found(rest, key);
    } else {
        assert(pairs.drop_first() == Seq::<Seq<char>>::empty());
        assert(first_value(pairs.drop_first(), key) is None);
    }
}

/// A parameter is found wherever it stands in a query, and its value goes up to the next pair
/// or to the end of the query. Of several with the same key the first counts.
pub proof fn first_parameter_is_found(
    before: Seq<char>,
    key: Seq<char>,
    value: Seq<char>,
    after: Seq<char>,
)
    requires
        !key.contains('='),
        !key.contains('&'),
        !value.contains('&'),
        before.len() > 0 ==> before.last() == '&',
        after.len() > 0 ==> after[0] == '&',
        forall|i: int, e: int|
            0 <= i && e == i + key.len() && e < before.len() && (i == 0 || before[i - 1] == '&')
                && #[trigger] before.subrange(i, e) == key ==> before[e] != '=',
    ensures
        query_value(Some(before + key + seq!['='] + value + after), key) == Some(value),
{
    let pair = key.push('=') + value;
    let tail = pair + after;
    let whole = before + key + seq!['='] + value + after;
    assert(whole == before + tail);
    assert(!pair.contains('&'));
    split_nothing(pair, '&');
    pair_gives_value(key, value);
    if after.len() > 0 {
        let rest = after.drop_first();
        assert(tail == pair.push('&') + rest);
        split_joined(pair, '&', rest);
        assert(split(tail, '&')[0] == pair);
    } else {
        assert(tail == pair);
    }
    assert(first_value(split(tail, '&'), key) == Some(value));
    if before.len() > 0 {
        let head = before.drop_last();
        assert(whole == head.push('&') + tail);
        split_joined(head, '&', tail);
        assert forall|i: int, e: int|
            0 <= i && e == i + key.len() && e < head.len() && (i == 0 || head[i - 1] == '&')
                && #[trigger] head.subrange(i, e) == key implies head[e] != '=' by {
            assert(before.subrange(i, e) == head.subrange(i, e));
        }
        absent_parameter_is_not_found(head, key);
        first_value_behind(split(head, '&'), split(tail, '&'), key);
    } else {
        assert(whole == tail);
    }
}

} // verus!
