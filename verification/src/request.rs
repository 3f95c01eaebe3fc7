//! What a request asks for, read from its JSON body.

use vstd::prelude::*;
use crate::json::{as_text, json_of, member, parse, parsed_json, Json};
use crate::search_result::field;
use vstd::string::*;
use crate::text::opt_text;
use crate::variant::{variant_named, FilterVariant};

verus! {

/// What the body of a request asks for.
#[derive(Debug)]
pub enum Command {
    /// Serve the product with this id.
    Change { id: String },
    /// Search the catalogue and serve the newest product found.
    New,
    /// The body names no command, or asks for a change without an id.
    Invalid,
}

/// A command, with the id as a sequence of characters.
pub ghost enum CommandView {
    Change { id: Seq<char> },
    New,
    Invalid,
}

impl View for Command {
    type V = CommandView;

    open spec fn view(&self) -> CommandView {
        match *self {
            Command::Change { id } => CommandView::Change { id: id@ },
            Command::New => CommandView::New,
            Command::Invalid => CommandView::Invalid,
        }
    }
}

/// The command of a body. The member `Command` must be a string. `Change`
/// asks for the product whose id is the string under `ID`; any other command
/// asks for a new search.
pub open spec fn command_of(body: Json) -> CommandView {
    match field(body, "Command"@, |v: Json| v.text()) {
        Some(command) => if command == "Change"@ {
            match field(body, "ID"@, |v: Json| v.text()) {
                Some(id) => CommandView::Change { id },
                None => CommandView::Invalid,
            }
        } else {
            CommandView::New
        },
        None => CommandView::Invalid,
    }
}

/// The command of the text of a body; invalid where the text is no JSON
/// document.
pub open spec fn command_in_text(input: Seq<char>) -> CommandView {
    match parsed_json(input) {
        Some(body) => command_of(body),
        None => CommandView::Invalid,
    }
}

/// The variant that a body asks for: the one named by the string under
/// `Filter`, and the true-colour composite where there is no such string.
pub open spec fn filter_of(body: Json) -> FilterVariant {
    match field(body, "Filter"@, |v: Json| v.text()) {
        Some(name) => variant_named(name),
        None => FilterVariant::TrueColor,
    }
}

/// The string under `key` of a body.
fn text_field(body: &serde_json::Value, key: &str) -> (r: Option<String>)
    ensures
        opt_text(r) == field(json_of(*body), key@, |v: Json| v.text()),
{
    match member(body, key) {
        Some(v) => as_text(v),
        None => None,
    }
}

/// Reads the command of a body.
pub fn command_in(body: &serde_json::Value) -> (r: Command)
    ensures
        r@ == command_of(json_of(*body)),
{
    match text_field(body, "Command") {
        Some(command) => {
            if command == String::from_str("Change") {
                match text_field(body, "ID") {
                    Some(id) => Command::Change { id },
                    None => Command::Invalid,
                }
            } else {
                Command::New
            }
        },
        None => Command::Invalid,
    }
}

/// Reads the command of the text of a body.
pub fn command_in_input(input: &str) -> (r: Command)
    ensures
        r@ == command_in_text(input@),
{
    match parse(input) {
        Some(body) => command_in(&body),
        None => Command::Invalid,
    }
}

/// Reads the variant that a body asks for.
pub fn requested_filter(body: &serde_json::Value) -> (r: FilterVariant)
    ensures
        r == filter_of(json_of(*body)),
{
    match text_field(body, "Filter") {
        Some(name) => FilterVariant::from_name(name.as_str()),
        None => FilterVariant::TrueColor,
    }
}

} // verus!
