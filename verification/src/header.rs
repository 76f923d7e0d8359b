//! The header fields of a request, and the lookup of a field by its name.

use axum::http::request::Parts;
use axum::http::HeaderValue;
use vstd::prelude::*;

verus! {

/// The name of the header that carries the caller's identity. Header names are
/// compared without regard to case.
pub const HEADER_X_USER_INFO: &'static str = "X-Endpoint-API-UserInfo";

/// The head of an HTTP request, `http::request::Parts`, which axum hands to
/// its extractors. Nothing of its inside is visible here; `header_fields`
/// names the header fields that it holds.
#[verifier::external_type_specification]
#[verifier::external_body]
pub struct ExParts(Parts);

/// The header fields that a request head holds: one entry for each value in
/// its header map, made of the field's name, as `HeaderName::as_str` gives it,
/// and the bytes of the value, as `HeaderValue::as_bytes` gives them. The
/// entries stand in the order in which `HeaderMap::iter` yields them, so that
/// of the values of one name the one that was set or appended first comes first.
pub uninterp spec fn header_fields(parts: Parts) -> Seq<(Seq<char>, Seq<u8>)>;

/// The lower-case form of an ASCII letter; any other character is left as it is.
pub open spec fn lowercase(c: char) -> char {
    if 'A' <= c && c <= 'Z' {
        ((c as u8) + 32) as char
    } else {
        c
    }
}

/// Two header names are the same when they differ in the case of ASCII letters
/// at most.
pub open spec fn same_name(a: Seq<char>, b: Seq<char>) -> bool {
    a.len() == b.len() && forall|i: int|
        0 <= i < a.len() ==> lowercase(#[trigger] a[i]) == lowercase(b[i])
}

/// The characters that a header name is made of: ASCII letters, digits, and
/// ``!#$%&'*+-.^_`|~``.
pub open spec fn is_token_char(c: char) -> bool {
    ('a' <= c && c <= 'z') || ('A' <= c && c <= 'Z') || ('0' <= c && c <= '9') || c == '!' || c
        == '#' || c == '$' || c == '%' || c == '&' || c == '\'' || c == '*' || c == '+' || c == '-'
        || c == '.' || c == '^' || c == '_' || c == '`' || c == '|' || c == '~'
}

/// Every character of `name` may stand in a header name.
pub open spec fn is_token(name: Seq<char>) -> bool {
    forall|i: int| 0 <= i < name.len() ==> is_token_char(#[trigger] name[i])
}

/// The value of the first field in `fields` whose name is `name`, whatever the
/// case of either; `None` where there is no such field.
pub open spec fn first_value(fields: Seq<(Seq<char>, Seq<u8>)>, name: Seq<char>) -> Option<
    Seq<u8>,
>
    decreases fields.len(),
{
    if fields.len() == 0 {
        None
    } else if same_name(fields.first().0, name) {
        Some(fields.first().1)
    } else {
        first_value(fields.drop_first(), name)
    }
}

/// `HeaderMap::get` on the header map of `parts`, with a string as the key,
/// and `HeaderValue::as_bytes` on what it finds. The map keeps its names in
/// lower case and turns the letters of the key to lower case before it looks
/// the key up. So for a key made of token characters, `get` gives the first
/// value that the map holds under a name that differs from the key in the case
/// of letters at most, and `None` where it holds none.
#[verifier::external_body]
pub(crate) fn first_header_value<'a>(parts: &'a Parts, name: &str) -> (r: Option<&'a [u8]>)
    requires
        is_token(name@),
    ensures
        match r {
            Some(value) => first_value(header_fields(*parts), name@) == Some(value@),
            None => first_value(header_fields(*parts), name@) is None,
        },
{
    parts.headers.get(name).map(HeaderValue::as_bytes)
}

/// No value is found exactly where no field has the name.
pub proof fn lemma_first_value_none(fields: Seq<(Seq<char>, Seq<u8>)>, name: Seq<char>)
    ensures
        first_value(fields, name) is None <==> forall|i: int|
            0 <= i < fields.len() ==> !same_name((#[trigger] fields[i]).0, name),
    decreases fields.len(),
{
    if fields.len() > 0 {
        let rest = fields.drop_first();
        lemma_first_value_none(rest, name);
        if same_name(fields.first().0, name) {
            assert(same_name(fields[0].0, name));
        } else if first_value(rest, name) is None {
            assert forall|i: int| 0 <= i < fields.len() implies !same_name(
                (#[trigger] fields[i]).0,
                name,
            ) by {
                if i > 0 {
                    assert(fields[i] == rest[i - 1]);
                }
            }
        } else {
            let i = choose|i: int| 0 <= i < rest.len() && same_name((#[trigger] rest[i]).0, name);
            assert(fields[i + 1] == rest[i]);
        }
    }
}

/// Where several fields have the name, the first of them gives the value.
pub proof fn lemma_first_value_is_first(
    fields: Seq<(Seq<char>, Seq<u8>)>,
    name: Seq<char>,
    at: int,
)
    requires
        0 <= at < fields.len(),
        same_name(fields[at].0, name),
        forall|i: int| 0 <= i < at ==> !same_name((#[trigger] fields[i]).0, name),
    ensures
        first_value(fields, name) == Some(fields[at].1),
    decreases fields.len(),
{
    if at > 0 {
        let rest = fields.drop_first();
        assert(!same_name(fields[0].0, name));
        assert(rest[at - 1] == fields[at]);
        assert forall|i: int| 0 <= i < at - 1 implies !same_name((#[trigger] rest[i]).0, name) by {
            assert(rest[i] == fields[i + 1]);
        }
        lemma_first_value_is_first(rest, name, at - 1);
    }
}

/// The lookup does not depend on the case of the letters, neither in the names
/// of the fields nor in the name that is looked up.
pub proof fn lemma_first_value_ignores_case(
    fields: Seq<(Seq<char>, Seq<u8>)>,
    name: Seq<char>,
    other_fields: Seq<(Seq<char>, Seq<u8>)>,
    other_name: Seq<char>,
)
    requires
        same_name(name, other_name),
        fields.len() == other_fields.len(),
        forall|i: int|
            0 <= i < fields.len() ==> same_name((#[trigger] fields[i]).0, other_fields[i].0)
                && fields[i].1 == other_fields[i].1,
    ensures
        first_value(fields, name) == first_value(other_fields, other_name),
    decreases fields.len(),
{
    if fields.len() > 0 {
        let rest = fields.drop_first();
        let other_rest = other_fields.drop_first();
        assert(same_name(fields[0].0, other_fields[0].0) && fields[0].1 == other_fields[0].1);
        assert(same_name(fields.first().0, name) == same_name(
            other_fields.first().0,
            other_name,
        )) by {
            let a = fields.first().0;
            let b = other_fields.first().0;
            if same_name(a, name) {
                assert forall|i: int| 0 <= i < b.len() implies lowercase(#[trigger] b[i])
                    == lowercase(other_name[i]) by {
                    assert(lowercase(a[i]) == lowercase(b[i]));
                    assert(lowercase(a[i]) == lowercase(name[i]));
                    assert(lowercase(name[i]) == lowercase(other_name[i]));
                }
            }
            if same_name(b, other_name) {
                assert forall|i: int| 0 <= i < a.len() implies lowercase(#[trigger] a[i])
                    == lowercase(name[i]) by {
                    assert(lowercase(a[i]) == lowercase(b[i]));
                    assert(lowercase(b[i]) == lowercase(other_name[i]));
                    assert(lowercase(name[i]) == lowercase(other_name[i]));
                }
            }
        }
        assert forall|i: int| 0 <= i < rest.len() implies same_name(
            (#[trigger] rest[i]).0,
            other_rest[i].0,
        ) && rest[i].1 == other_rest[i].1 by {
            assert(rest[i] == fields[i + 1]);
            assert(other_rest[i] == other_fields[i + 1]);
        }
        lemma_first_value_ignores_case(rest, name, other_rest, other_name);
    }
}

/// The name of the identity header is made of token characters.
pub proof fn lemma_header_name_is_token()
    ensures
        is_token(HEADER_X_USER_INFO@),
{
    reveal_strlit("X-Endpoint-API-UserInfo");
}

} // verus!
