//! The request for an access token, and reading the token out of the
//! identity service's answer.

use vstd::prelude::*;
use vstd::string::*;
use crate::json::{as_text, json_of, member, parse, parsed_json, Json};
use crate::search_result::field;
use crate::text::opt_text;

verus! {

/// The access token of an answer: the member `access_token`, if it is a
/// string.
pub open spec fn token_of(answer: Json) -> Option<Seq<char>> {
    field(answer, "access_token"@, |v: Json| v.text())
}

/// The access token that the text of an answer holds; `None` where the text
/// is no JSON document or the document has no such string.
pub open spec fn token_in_text(body: Seq<char>) -> Option<Seq<char>> {
    match parsed_json(body) {
        Some(answer) => token_of(answer),
        None => None,
    }
}

/// The access token of an answer of the identity service.
pub fn token_in(answer: &serde_json::Value) -> (r: Option<String>)
    ensures
        opt_text(r) == token_of(json_of(*answer)),
{
    match member(answer, "access_token") {
        Some(v) => as_text(v),
        None => None,
    }
}

/// The access token that the text of an answer of the identity service
/// holds.
pub fn access_token(body: &str) -> (r: Option<String>)
    ensures
        opt_text(r) == token_in_text(body@),
{
    match parse(body) {
        Some(answer) => token_in(&answer),
        None => None,
    }
}

/// The fields of the form that asks for a token, as pairs of a name and a
/// value: the public client id, the user name, the password, and the grant
/// type `password`.
pub open spec fn token_form(username: Seq<char>, password: Seq<char>) -> Seq<
    (Seq<char>, Seq<char>),
> {
    seq![
        ("client_id"@, "cdse-public"@),
        ("username"@, username),
        ("password"@, password),
        ("grant_type"@, "password"@),
    ]
}

/// The fields as pairs of sequences of characters.
pub open spec fn fields_of(fields: Seq<(String, String)>) -> Seq<(Seq<char>, Seq<char>)> {
    Seq::new(fields.len(), |i: int| (fields[i].0@, fields[i].1@))
}

/// The fields of the form that asks the identity service for a token.
pub fn token_request(username: &str, password: &str) -> (r: Vec<(String, String)>)
    ensures
        fields_of(r@) == token_form(username@, password@),
{
    let mut r: Vec<(String, String)> = Vec::with_capacity(4);
    r.push((String::from_str("client_id"), String::from_str("cdse-public")));
    r.push((String::from_str("username"), String::from_str(username)));
    r.push((String::from_str("password"), String::from_str(password)));
    r.push((String::from_str("grant_type"), String::from_str("password")));
    r
}

} // verus!
