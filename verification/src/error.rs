//! The errors of an update, and the text under which they are reported.

use crate::select::{AmbiguousSelection, ParseError, SelectError, SelectorQuery};
use crate::text::{decimal, decimal_string};
use vstd::prelude::*;
use vstd::string::*;

verus! {

/// An error that is nothing but its message.
#[derive(Debug, PartialEq, Eq)]
pub struct SimpleError {
    message: String,
}

impl View for SimpleError {
    type V = Seq<char>;

    closed spec fn view(&self) -> Seq<char> {
        self.message@
    }
}

impl SimpleError {
    /// An error with the given message.
    pub fn new(message: &str) -> (error: SimpleError)
        ensures
            error@ == message@,
    {
        SimpleError { message: message.to_owned() }
    }

    /// The message.
    pub fn description(&self) -> (message: &str)
        ensures
            message@ == self@,
    {
        self.message.as_str()
    }

    /// The message, as an owned string.
    pub fn to_string(&self) -> (message: String)
        ensures
            message@ == self@,
    {
        self.message.clone()
    }
}

/// Why an update of a monitor failed.
#[derive(Debug, PartialEq, Eq)]
pub enum UpdateError {
    /// The page could not be fetched; the error is the transport's.
    Fetch(SimpleError),
    /// The page was fetched but is not accepted as a document.
    Parse(ParseError),
    /// A selector of the site did not yield exactly one element.
    Select(SelectError),
}

/// `label (selector)`: how messages name a selector.
pub open spec fn query_text(query: SelectorQuery) -> Seq<char> {
    query.label@ + " ("@ + query.selector@ + ")"@
}

/// The message of a refused page.
pub open spec fn parse_message(error: ParseError) -> Seq<char> {
    match error {
        ParseError::Empty => "The page is empty"@,
        ParseError::TooLarge => "The page is too large"@,
    }
}

/// The message of a failed selection.
pub open spec fn select_message(error: SelectError) -> Seq<char> {
    match error {
        SelectError::InvalidSelector(query) => "Invalid selector for "@ + query_text(query),
        SelectError::AmbiguousSelection(ambiguous) => "Found "@ + decimal(
            ambiguous.match_count as nat,
        ) + " selection(s) for "@ + query_text(ambiguous.selector),
    }
}

/// The message of a failed update.
pub open spec fn update_message(error: UpdateError) -> Seq<char> {
    match error {
        UpdateError::Fetch(cause) => cause@,
        UpdateError::Parse(cause) => parse_message(cause),
        UpdateError::Select(cause) => select_message(cause),
    }
}

fn append_query(text: &mut String, query: SelectorQuery)
    ensures
        final(text)@ == old(text)@ + query_text(query),
{
    text.append(query.label);
    text.append(" (");
    text.append(query.selector);
    text.append(")");
}

impl ParseError {
    /// The message under which the error is reported.
    pub fn message(&self) -> (text: String)
        ensures
            text@ == parse_message(*self),
    {
        match self {
            ParseError::Empty => "The page is empty".to_owned(),
            ParseError::TooLarge => "The page is too large".to_owned(),
        }
    }
}

impl SelectError {
    /// The message under which the error is reported.
    pub fn message(&self) -> (text: String)
        ensures
            text@ == select_message(*self),
    {
        match self {
            SelectError::InvalidSelector(query) => {
                let mut text = "Invalid selector for ".to_owned();
                append_query(&mut text, *query);
                text
            },
            SelectError::AmbiguousSelection(ambiguous) => {
                let mut text = "Found ".to_owned();
                let count = decimal_string(ambiguous.match_count);
                text.append(count.as_str());
                text.append(" selection(s) for ");
                append_query(&mut text, ambiguous.selector);
                text
            },
        }
    }
}

impl UpdateError {
    /// The message under which the error is reported.
    pub fn message(&self) -> (text: String)
        ensures
            text@ == update_message(*self),
    {
        match self {
            UpdateError::Fetch(cause) => cause.to_string(),
            UpdateError::Parse(cause) => cause.message(),
            UpdateError::Select(cause) => cause.message(),
        }
    }
}

} // verus!
