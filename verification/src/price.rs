use vstd::prelude::*;
use vstd::utf8::encode_utf8;

verus! {

/// An HTTP status in the 2xx range, the one `StatusCode::is_success` accepts.
pub open spec fn is_success_code(status: u16) -> bool {
    200 <= status < 300
}

/// Whether the price service answered with a success status.
pub fn is_success_status(status: u16) -> (ok: bool)
    ensures
        ok == is_success_code(status),
{
    200 <= status && status < 300
}

/// Text that a JSON string holds as it is, with no escape: no quote, no
/// backslash, no control character.
pub open spec fn is_plain_json_text(text: Seq<char>) -> bool {
    forall|i: int|
        0 <= i < text.len() ==> {
            &&& #[trigger] text[i] != '"'
            &&& text[i] != '\\'
            &&& (text[i] as u32) >= 0x20
        }
}

/// `"key":"value"`, a member of a JSON object whose value is a string.
pub open spec fn json_member_text(key: Seq<char>, value: Seq<char>) -> Seq<char> {
    seq!['"'] + key + seq!['"', ':', '"'] + value + seq!['"']
}

/// The members, written one after another and separated by commas.
pub open spec fn json_members_text(members: Seq<(Seq<char>, Seq<char>)>) -> Seq<char>
    decreases members.len(),
{
    if members.len() == 0 {
        seq![]
    } else if members.len() == 1 {
        json_member_text(members[0].0, members[0].1)
    } else {
        json_members_text(members.drop_last()) + seq![','] + json_member_text(
            members.last().0,
            members.last().1,
        )
    }
}

/// The JSON object with these members, in this order, with no white space:
/// `{"k1":"v1","k2":"v2"}`.
pub open spec fn json_object_text(members: Seq<(Seq<char>, Seq<char>)>) -> Seq<char> {
    seq!['{'] + json_members_text(members) + seq!['}']
}

/// Every key and every value of the members is plain text.
pub open spec fn plain_members(members: Seq<(Seq<char>, Seq<char>)>) -> bool {
    forall|i: int|
        0 <= i < members.len() ==> is_plain_json_text(#[trigger] members[i].0)
            && is_plain_json_text(members[i].1)
}

/// No two members have the same key.
pub open spec fn distinct_keys(members: Seq<(Seq<char>, Seq<char>)>) -> bool {
    forall|i: int, j: int|
        0 <= i < members.len() && 0 <= j < members.len() && i != j ==> #[trigger] members[i].0
            != #[trigger] members[j].0
}

/// The ticker response `{"symbol":"<symbol>","price":"<price>"}`.
pub open spec fn ticker_json_text(symbol: Seq<char>, price: Seq<char>) -> Seq<char> {
    json_object_text(seq![("symbol"@, symbol), ("price"@, price)])
}

/// The string that the JSON document `body` holds under the top-level member
/// `key`, if `body` parses as JSON, is an object, and that member is a string.
pub uninterp spec fn json_string_member(body: Seq<u8>, key: Seq<char>) -> Option<Seq<char>>;

/// Parses `body` with `serde_json::from_slice` into a `serde_json::Value` and
/// returns the string under the top-level member `key`, where there is one.
/// What JSON parsing accepts is not stated: the result is tied, by a name, to
/// `body` and `key` alone, except on flat objects of string members written
/// without escapes or white space: there the string under `key` is found, and
/// a missing `key` gives nothing.
#[verifier::external_body]
fn json_string_member_of(body: &[u8], key: &str) -> (member: Option<String>)
    ensures
        member.deep_view() == json_string_member(body@, key@),
        forall|members: Seq<(Seq<char>, Seq<char>)>, i: int|
            #![trigger encode_utf8(json_object_text(members)), members[i]]
            body@ == encode_utf8(json_object_text(members)) && plain_members(members)
                && distinct_keys(members) && 0 <= i < members.len() && members[i].0 == key@
                ==> member.deep_view() == Some(members[i].1),
        forall|members: Seq<(Seq<char>, Seq<char>)>|
            #![trigger encode_utf8(json_object_text(members))]
            body@ == encode_utf8(json_object_text(members)) && plain_members(members) && (forall|
                i: int,
            |
                0 <= i < members.len() ==> #[trigger] members[i].0 != key@) ==> member is None,
{
    match serde_json::from_slice::<serde_json::Value>(body) {
        Ok(value) => match value.get(key) {
            Some(serde_json::Value::String(text)) => Some(text.clone()),
            _ => None,
        },
        Err(_) => None,
    }
}

/// The text of the price in a ticker response: nothing unless the status is a
/// success, else the string under `"price"` in the JSON body, if there is one.
pub fn price_text(status: u16, body: &[u8]) -> (text: Option<String>)
    ensures
        text.deep_view() == (if is_success_code(status) {
            json_string_member(body@, "price"@)
        } else {
            None
        }),
        forall|members: Seq<(Seq<char>, Seq<char>)>, i: int|
            #![trigger encode_utf8(json_object_text(members)), members[i]]
            is_success_code(status) && body@ == encode_utf8(json_object_text(members))
                && plain_members(members) && distinct_keys(members) && 0 <= i < members.len()
                && members[i].0 == "price"@ ==> text.deep_view() == Some(members[i].1),
        forall|members: Seq<(Seq<char>, Seq<char>)>|
            #![trigger encode_utf8(json_object_text(members))]
            body@ == encode_utf8(json_object_text(members)) && plain_members(members) && (forall|
                i: int,
            |
                0 <= i < members.len() ==> #[trigger] members[i].0 != "price"@) ==> text is None,
        forall|symbol: Seq<char>, price: Seq<char>|
            #![trigger ticker_json_text(symbol, price)]
            is_success_code(status) && is_plain_json_text(symbol) && is_plain_json_text(price)
                && body@ == encode_utf8(ticker_json_text(symbol, price))
                ==> text.deep_view() == Some(price),
{
    proof {
        reveal_strlit("symbol");
        reveal_strlit("price");
    }
    if is_success_status(status) {
        json_string_member_of(body, "price")
    } else {
        None
    }
}

} // verus!
