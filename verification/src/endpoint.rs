//! The connection URL: how it is assembled, how its parts are told apart,
//! and how it is handed to the URL library.

use vstd::prelude::*;
use vstd::string::*;
use crate::error::ConnectionError;

verus! {

/// The platform name that the client reports.
pub const CLIENT_PLATFORM: &'static str = "canary";

/// The version that the client reports.
pub const CLIENT_VERSION: &'static str = "0.1.0";

/// One query parameter: `name=value`.
pub open spec fn parameter(name: Seq<char>, value: Seq<char>) -> Seq<char> {
    name + "="@ + value
}

/// The query string: the five parameters, in order, joined by `&`.
pub open spec fn query_text(
    identity: Seq<char>,
    platform: Seq<char>,
    version: Seq<char>,
    timestamp: Seq<char>,
    signature: Seq<char>,
) -> Seq<char> {
    parameter("client_id"@, identity) + "&"@ + parameter("client_platform"@, platform) + "&"@
        + parameter("client_version"@, version) + "&"@ + parameter("auth_timestamp"@, timestamp)
        + "&"@ + parameter("auth_signature"@, signature)
}

/// The connection URL: the fixed secure WebSocket endpoint, then the query.
/// The values are inserted as they are, without escaping.
pub open spec fn url_text(
    identity: Seq<char>,
    platform: Seq<char>,
    version: Seq<char>,
    timestamp: Seq<char>,
    signature: Seq<char>,
) -> Seq<char> {
    "wss://atlas.bailoutapp.io/api/v1/"@ + "?"@ + query_text(
        identity,
        platform,
        version,
        timestamp,
        signature,
    )
}

/// Appends `name=value` to `url`.
fn append_parameter(url: &mut String, name: &str, value: &str)
    ensures
        final(url)@ == old(url)@ + parameter(name@, value@),
{
    url.append(name);
    url.append("=");
    url.append(value);
    assert(final(url)@ =~= old(url)@ + parameter(name@, value@));
}

/// Assembles the connection URL from the client's identity and metadata,
/// the timestamp and the signature.
pub fn get_url(
    client_id: &str,
    client_platform: &str,
    client_version: &str,
    auth_timestamp: &str,
    auth_signature: &str,
) -> (url: String)
    ensures
        url@ == url_text(
            client_id@,
            client_platform@,
            client_version@,
            auth_timestamp@,
            auth_signature@,
        ),
{
    let mut url = String::from_str("wss://atlas.bailoutapp.io/api/v1/");
    url.append("?");
    append_parameter(&mut url, "client_id", client_id);
    url.append("&");
    append_parameter(&mut url, "client_platform", client_platform);
    url.append("&");
    append_parameter(&mut url, "client_version", client_version);
    url.append("&");
    append_parameter(&mut url, "auth_timestamp", auth_timestamp);
    url.append("&");
    append_parameter(&mut url, "auth_signature", auth_signature);
    assert(url@ =~= url_text(
        client_id@,
        client_platform@,
        client_version@,
        auth_timestamp@,
        auth_signature@,
    ));
    url
}

/// Whether `c` does not occur in `s`.
pub open spec fn free_of(s: Seq<char>, c: char) -> bool {
    forall|i: int| 0 <= i < s.len() ==> #[trigger] s[i] != c
}

/// Whether `s` can stand as a query value without escaping: it holds neither
/// `&`, which would start another parameter, nor `#`, which would end the
/// query.
pub open spec fn is_query_safe(s: Seq<char>) -> bool {
    free_of(s, '&') && free_of(s, '#')
}

/// The position of the first `c` in `s`, or the length of `s` where there is
/// none.
pub open spec fn first_index(s: Seq<char>, c: char) -> int
    decreases s.len(),
{
    if s.len() == 0 {
        0
    } else if s[0] == c {
        0
    } else {
        1 + first_index(s.drop_first(), c)
    }
}

/// The pieces of `s` between occurrences of `separator`.
pub open spec fn split_on(s: Seq<char>, separator: char) -> Seq<Seq<char>>
    decreases s.len(),
{
    let at = first_index(s, separator);
    if 0 <= at < s.len() {
        seq![s.take(at)] + split_on(s.skip(at + 1), separator)
    } else {
        seq![s]
    }
}

/// The scheme of a URL: what stands before the first `:`.
pub open spec fn scheme_of(url: Seq<char>) -> Seq<char> {
    url.take(first_index(url, ':'))
}

/// The query of a URL: what stands after the first `?`, up to the fragment.
/// Empty where the URL has no `?`.
pub open spec fn query_of(url: Seq<char>) -> Seq<char> {
    let before_fragment = url.take(first_index(url, '#'));
    let mark = first_index(before_fragment, '?');
    if mark < before_fragment.len() {
        before_fragment.skip(mark + 1)
    } else {
        Seq::empty()
    }
}

/// The name and the value of one query field, parted at its first `=`. A
/// field without `=` is a name with an empty value.
pub open spec fn pair_of(field: Seq<char>) -> (Seq<char>, Seq<char>) {
    let at = first_index(field, '=');
    if at < field.len() {
        (field.take(at), field.skip(at + 1))
    } else {
        (field, Seq::empty())
    }
}

/// The query parameters of a URL, in order, as written (nothing is
/// unescaped).
pub open spec fn query_pairs(url: Seq<char>) -> Seq<(Seq<char>, Seq<char>)> {
    split_on(query_of(url), '&').map_values(|field: Seq<char>| pair_of(field))
}

/// The first `c` of `s` stands at `at` when `s` has `c` there and nowhere
/// before.
proof fn lemma_first_index_found(s: Seq<char>, c: char, at: int)
    requires
        0 <= at < s.len(),
        s[at] == c,
        forall|i: int| 0 <= i < at ==> #[trigger] s[i] != c,
    ensures
        first_index(s, c) == at,
    decreases at,
{
    if at > 0 {
        let rest = s.drop_first();
        assert forall|i: int| 0 <= i < at - 1 implies #[trigger] rest[i] != c by {
            assert(rest[i] == s[i + 1]);
        }
        lemma_first_index_found(rest, c, at - 1);
    }
}

/// Where `c` does not occur, the search runs to the end.
proof fn lemma_first_index_absent(s: Seq<char>, c: char)
    requires
        free_of(s, c),
    ensures
        first_index(s, c) == s.len(),
    decreases s.len(),
{
    if s.len() > 0 {
        let rest = s.drop_first();
        assert forall|i: int| 0 <= i < rest.len() implies #[trigger] rest[i] != c by {
            assert(rest[i] == s[i + 1]);
        }
        assert(s[0] != c);
        lemma_first_index_absent(rest, c);
    }
}

/// Splitting `head`, a separator and `tail` gives `head` and then the pieces
/// of `tail`, when `head` holds no separator.
proof fn lemma_split_head(head: Seq<char>, separator: char, tail: Seq<char>)
    requires
        free_of(head, separator),
    ensures
        split_on(head + seq![separator] + tail, separator) == seq![head] + split_on(
            tail,
            separator,
        ),
{
    let s = head + seq![separator] + tail;
    let at = head.len() as int;
    assert(s[at] == separator);
    assert forall|i: int| 0 <= i < at implies #[trigger] s[i] != separator by {
        assert(s[i] == head[i]);
    }
    lemma_first_index_found(s, separator, at);
    assert(s.take(at) =~= head);
    assert(s.skip(at + 1) =~= tail);
}

/// A text without separator is its own single piece.
proof fn lemma_split_last(s: Seq<char>, separator: char)
    requires
        free_of(s, separator),
    ensures
        split_on(s, separator) == seq![s],
{
    lemma_first_index_absent(s, separator);
}

/// A parameter parts into its name and value, when the name holds no `=`.
proof fn lemma_pair_of_parameter(name: Seq<char>, value: Seq<char>)
    requires
        free_of(name, '='),
    ensures
        pair_of(parameter(name, value)) == (name, value),
{
    reveal_strlit("=");
    let field = parameter(name, value);
    let at = name.len() as int;
    assert(field[at] == '=');
    assert forall|i: int| 0 <= i < at implies #[trigger] field[i] != '=' by {
        assert(field[i] == name[i]);
    }
    lemma_first_index_found(field, '=', at);
    assert(field.take(at) =~= name);
    assert(field.skip(at + 1) =~= value);
}

/// A parameter holds no `c`, when its name and value hold none and `c` is
/// not `=`.
proof fn lemma_parameter_free_of(name: Seq<char>, value: Seq<char>, c: char)
    requires
        free_of(name, c),
        free_of(value, c),
        c != '=',
    ensures
        free_of(parameter(name, value), c),
{
    reveal_strlit("=");
    let field = parameter(name, value);
    assert forall|i: int| 0 <= i < field.len() implies #[trigger] field[i] != c by {
        if i < name.len() {
            assert(field[i] == name[i]);
        } else if i == name.len() {
            assert(field[i] == '=');
        } else {
            assert(field[i] == value[i - name.len() - 1]);
        }
    }
}

/// The five parameter names hold none of the characters that structure a
/// URL's query.
proof fn lemma_names_are_plain()
    ensures
        forall|c: char|
            c == '=' || c == '&' || c == '#' ==> free_of("client_id"@, c) && free_of(
                "client_platform"@,
                c,
            ) && free_of("client_version"@, c) && free_of("auth_timestamp"@, c) && free_of(
                "auth_signature"@,
                c,
            ),
{
    reveal_strlit("client_id");
    reveal_strlit("client_platform");
    reveal_strlit("client_version");
    reveal_strlit("auth_timestamp");
    reveal_strlit("auth_signature");
}

/// The query of an assembled URL splits into its five parameters, when no
/// value holds `&`.
proof fn lemma_query_fields(
    identity: Seq<char>,
    platform: Seq<char>,
    version: Seq<char>,
    timestamp: Seq<char>,
    signature: Seq<char>,
)
    requires
        free_of(identity, '&'),
        free_of(platform, '&'),
        free_of(version, '&'),
        free_of(timestamp, '&'),
        free_of(signature, '&'),
    ensures
        split_on(query_text(identity, platform, version, timestamp, signature), '&') == seq![
            parameter("client_id"@, identity),
            parameter("client_platform"@, platform),
            parameter("client_version"@, version),
            parameter("auth_timestamp"@, timestamp),
            parameter("auth_signature"@, signature),
        ],
{
    reveal_strlit("&");
    lemma_names_are_plain();
    let first = parameter("client_id"@, identity);
    let second = parameter("client_platform"@, platform);
    let third = parameter("client_version"@, version);
    let fourth = parameter("auth_timestamp"@, timestamp);
    let fifth = parameter("auth_signature"@, signature);
    lemma_parameter_free_of("client_id"@, identity, '&');
    lemma_parameter_free_of("client_platform"@, platform, '&');
    lemma_parameter_free_of("client_version"@, version, '&');
    lemma_parameter_free_of("auth_timestamp"@, timestamp, '&');
    lemma_parameter_free_of("auth_signature"@, signature, '&');
    let amp = seq!['&'];
    assert("&"@ =~= amp);
    let from_fourth = fourth + amp + fifth;
    let from_third = third + amp + from_fourth;
    let from_second = second + amp + from_third;
    let from_first = first + amp + from_second;
    assert(query_text(identity, platform, version, timestamp, signature) =~= from_first);
    lemma_split_last(fifth, '&');
    lemma_split_head(fourth, '&', fifth);
    lemma_split_head(third, '&', from_fourth);
    lemma_split_head(second, '&', from_third);
    lemma_split_head(first, '&', from_second);
    assert(split_on(from_first, '&') =~= seq![first, second, third, fourth, fifth]);
}

/// An assembled URL is well formed: its scheme is `wss` and its query holds
/// exactly the five parameters, in order, each with the value that was
/// given. This holds for all values that need no escaping, that is, that
/// hold neither `&` nor `#`.
pub proof fn lemma_url_well_formed(
    identity: Seq<char>,
    platform: Seq<char>,
    version: Seq<char>,
    timestamp: Seq<char>,
    signature: Seq<char>,
)
    requires
        is_query_safe(identity),
        is_query_safe(platform),
        is_query_safe(version),
        is_query_safe(timestamp),
        is_query_safe(signature),
    ensures
        scheme_of(url_text(identity, platform, version, timestamp, signature)) == "wss"@,
        query_pairs(url_text(identity, platform, version, timestamp, signature)) == seq![
            ("client_id"@, identity),
            ("client_platform"@, platform),
            ("client_version"@, version),
            ("auth_timestamp"@, timestamp),
            ("auth_signature"@, signature),
        ],
{
    let base = "wss://atlas.bailoutapp.io/api/v1/"@;
    let query = query_text(identity, platform, version, timestamp, signature);
    let url = url_text(identity, platform, version, timestamp, signature);
    reveal_strlit("wss://atlas.bailoutapp.io/api/v1/");
    reveal_strlit("wss");
    reveal_strlit("?");
    reveal_strlit("&");
    lemma_names_are_plain();
    assert(url =~= base + seq!['?'] + query);

    // The scheme ends at the first colon, which the fixed part holds.
    assert(url[3] == base[3]);
    assert forall|i: int| 0 <= i < 3 implies #[trigger] url[i] != ':' by {
        assert(url[i] == base[i]);
    }
    lemma_first_index_found(url, ':', 3);
    assert(url.take(3) =~= "wss"@);

    // No part holds a `#`, so the URL has no fragment.
    lemma_parameter_free_of("client_id"@, identity, '#');
    lemma_parameter_free_of("client_platform"@, platform, '#');
    lemma_parameter_free_of("client_version"@, version, '#');
    lemma_parameter_free_of("auth_timestamp"@, timestamp, '#');
    lemma_parameter_free_of("auth_signature"@, signature, '#');
    assert(free_of(base, '#'));
    assert(free_of(query, '#'));
    assert forall|i: int| 0 <= i < url.len() implies #[trigger] url[i] != '#' by {
        if i < base.len() {
            assert(url[i] == base[i]);
        } else if i == base.len() {
            assert(url[i] == '?');
        } else {
            assert(url[i] == query[i - base.len() - 1]);
        }
    }
    lemma_first_index_absent(url, '#');
    assert(url.take(url.len() as int) =~= url);

    // The query starts after the fixed part's question mark.
    let mark = base.len() as int;
    assert(url[mark] == '?');
    assert forall|i: int| 0 <= i < mark implies #[trigger] url[i] != '?' by {
        assert(url[i] == base[i]);
    }
    lemma_first_index_found(url, '?', mark);
    assert(url.skip(mark + 1) =~= query);
    assert(query_of(url) == query);

    // It splits into the five parameters, and each into name and value.
    lemma_query_fields(identity, platform, version, timestamp, signature);
    lemma_pair_of_parameter("client_id"@, identity);
    lemma_pair_of_parameter("client_platform"@, platform);
    lemma_pair_of_parameter("client_version"@, version);
    lemma_pair_of_parameter("auth_timestamp"@, timestamp);
    lemma_pair_of_parameter("auth_signature"@, signature);
    assert(query_pairs(url) =~= seq![
        ("client_id"@, identity),
        ("client_platform"@, platform),
        ("client_version"@, version),
        ("auth_timestamp"@, timestamp),
        ("auth_signature"@, signature),
    ]);
}

/// A parsed absolute URL, as the URL library represents it.
#[verifier::external_type_specification]
#[verifier::external_body]
pub struct ExUrl(url::Url);

/// The URL library's parse error.
#[verifier::external_type_specification]
#[verifier::external_body]
pub struct ExUrlParseError(url::ParseError);

/// The URL that `url::Url::parse` reads from `text`, or `None` where it
/// reports an error.
pub uninterp spec fn parsed_url(text: Seq<char>) -> Option<url::Url>;

/// Calls `url::Url::parse`. Parsing depends on the text alone, so the
/// outcome is `parsed_url` of the text.
#[verifier::external_body]
fn parse_absolute(text: &str) -> (parsed: Result<url::Url, url::ParseError>)
    ensures
        match parsed {
            Ok(url) => parsed_url(text@) == Some(url),
            Err(_) => parsed_url(text@) is None,
        },
{
    url::Url::parse(text)
}

/// Parses the connection URL for the transport. Fails exactly where the
/// text is not an absolute URL.
pub fn parse_endpoint(text: &str) -> (endpoint: Result<url::Url, ConnectionError>)
    ensures
        match endpoint {
            Ok(url) => parsed_url(text@) == Some(url),
            Err(error) => parsed_url(text@) is None && error == ConnectionError::MalformedUrl,
        },
{
    match parse_absolute(text) {
        Ok(url) => Ok(url),
        Err(_) => Err(ConnectionError::MalformedUrl),
    }
}

} // verus!
