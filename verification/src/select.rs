//! Selecting exactly one element of a page with a CSS selector.

use vstd::prelude::*;
use vstd::string::*;
use vstd::utf8::*;

verus! {

/// The largest page, in bytes, that is handed to the HTML parser.
pub const MAX_DOCUMENT_BYTES: usize = 268_435_456;

/// The longest selector, in bytes, that is handed to the selector parser.
pub const MAX_SELECTOR_BYTES: usize = 1024;

/// A CSS selector of a site together with the name under which error
/// messages speak of it.
#[derive(Clone, Copy, Debug, PartialEq, Eq)]
pub struct SelectorQuery {
    /// The CSS selector.
    pub selector: &'static str,
    /// What the selector is meant to find.
    pub label: &'static str,
}

/// Why a page was not accepted as a document.
#[derive(Clone, Copy, Debug, PartialEq, Eq, Structural)]
pub enum ParseError {
    /// The page holds no text at all.
    Empty,
    /// The page is longer than [`MAX_DOCUMENT_BYTES`].
    TooLarge,
}

/// A selector that matched no element, or more than one.
#[derive(Clone, Copy, Debug, PartialEq, Eq)]
pub struct AmbiguousSelection {
    /// The selector that was applied.
    pub selector: SelectorQuery,
    /// How many elements it matched.
    pub match_count: usize,
}

/// Why no single element could be selected.
#[derive(Clone, Copy, Debug, PartialEq, Eq)]
pub enum SelectError {
    /// The selector is too long, may name the relational pseudo-class
    /// `:has(..)`, or is not a valid CSS selector group.
    InvalidSelector(SelectorQuery),
    /// The selector did not match exactly one element.
    AmbiguousSelection(AmbiguousSelection),
}

/// The text of a page that the HTML parser accepts: not empty, and no
/// longer than [`MAX_DOCUMENT_BYTES`].
#[derive(Debug)]
pub struct Document {
    text: String,
}

impl View for Document {
    type V = Seq<char>;

    closed spec fn view(&self) -> Seq<char> {
        self.text@
    }
}

/// What [`Document::parse`] answers for a page text: the error with which
/// it is refused, or `None` where it is accepted.
pub open spec fn parse_error(text: Seq<char>) -> Option<ParseError> {
    if text.len() == 0 {
        Some(ParseError::Empty)
    } else if encode_utf8(text).len() > MAX_DOCUMENT_BYTES {
        Some(ParseError::TooLarge)
    } else {
        None
    }
}

impl Document {
    #[verifier::type_invariant]
    spec fn well_formed(&self) -> bool {
        parse_error(self.text@) is None
    }

    /// Accepts a page text as a document, or says why it is refused.
    pub fn parse(text: String) -> (parsed: Result<Document, ParseError>)
        ensures
            match parsed {
                Ok(document) => parse_error(text@) is None && document@ == text@,
                Err(error) => parse_error(text@) == Some(error),
            },
    {
        let length = text.as_str().as_bytes().len();
        if length == 0 {
            Err(ParseError::Empty)
        } else if length > MAX_DOCUMENT_BYTES {
            Err(ParseError::TooLarge)
        } else {
            Ok(Document { text })
        }
    }

    /// The text of the document.
    pub fn as_str(&self) -> (text: &str)
        ensures
            text@ == self@,
    {
        self.text.as_str()
    }
}

/// The four characters at a place of the selector spell `has(`, in any
/// ASCII case.
pub open spec fn spells_has_at(selector: Seq<char>, i: int) -> bool {
    &&& 0 <= i && i + 3 < selector.len()
    &&& (selector[i] == 'h' || selector[i] == 'H')
    &&& (selector[i + 1] == 'a' || selector[i + 1] == 'A')
    &&& (selector[i + 2] == 's' || selector[i + 2] == 'S')
    &&& selector[i + 3] == '('
}

/// Somewhere the selector spells `has(`, in any ASCII case.
pub open spec fn spells_has(selector: Seq<char>) -> bool {
    exists|i: int| spells_has_at(selector, i)
}

/// A selector that may name the relational pseudo-class `:has(..)`. A
/// pseudo-class takes a colon; its name is then either spelled out or
/// written with an escape, which takes a backslash.
pub open spec fn may_be_relational(selector: Seq<char>) -> bool {
    selector.contains(':') && (selector.contains('\\') || spells_has(selector))
}

/// A selector that is tried on a document: no longer than
/// [`MAX_SELECTOR_BYTES`], and without the relational pseudo-class.
pub open spec fn is_tried(selector: Seq<char>) -> bool {
    encode_utf8(selector).len() <= MAX_SELECTOR_BYTES && !may_be_relational(selector)
}

/// Tells whether a selector may name the relational pseudo-class.
pub fn names_relational(selector: &str) -> (relational: bool)
    ensures
        relational == may_be_relational(selector@),
{
    let mut colon = false;
    let mut backslash = false;
    let mut has = false;
    // The last three characters read, the latest in `first_before`; a space
    // where there is none yet.
    let mut first_before = ' ';
    let mut second_before = ' ';
    let mut third_before = ' ';
    for symbol in symbols: selector.chars()
        invariant
            symbols.seq() == selector@,
            colon == selector@.take(symbols.index()).contains(':'),
            backslash == selector@.take(symbols.index()).contains('\\'),
            has == spells_has(selector@.take(symbols.index())),
            first_before == (if symbols.index() >= 1 {
                selector@[symbols.index() - 1]
            } else {
                ' '
            }),
            second_before == (if symbols.index() >= 2 {
                selector@[symbols.index() - 2]
            } else {
                ' '
            }),
            third_before == (if symbols.index() >= 3 {
                selector@[symbols.index() - 3]
            } else {
                ' '
            }),
    {
        proof {
            lemma_one_more_symbol(selector@, symbols.index());
        }
        if symbol == ':' {
            colon = true;
        }
        if symbol == '\\' {
            backslash = true;
        }
        if symbol == '(' && (first_before == 's' || first_before == 'S') && (second_before == 'a'
            || second_before == 'A') && (third_before == 'h' || third_before == 'H') {
            has = true;
        }
        third_before = second_before;
        second_before = first_before;
        first_before = symbol;
    }
    assert(selector@.take(selector@.len() as int) == selector@);
    colon && (backslash || has)
}

/// What one more character adds to the beginning of a selector: the
/// character itself, and `has(` where it closes that spelling.
proof fn lemma_one_more_symbol(selector: Seq<char>, n: int)
    requires
        0 <= n < selector.len(),
    ensures
        forall|symbol: char| #[trigger]
            selector.take(n + 1).contains(symbol) == (selector.take(n).contains(symbol)
                || selector[n] == symbol),
        spells_has(selector.take(n + 1)) == (spells_has(selector.take(n)) || spells_has_at(
            selector,
            n - 3,
        )),
{
    let before = selector.take(n);
    let after = selector.take(n + 1);
    assert(after[n] == selector[n]);
    assert forall|i: int| 0 <= i < n implies before[i] == after[i] by {}
    if spells_has(before) {
        let i = choose|i: int| spells_has_at(before, i);
        assert(spells_has_at(after, i));
    }
    if spells_has_at(selector, n - 3) {
        assert(spells_has_at(after, n - 3));
    }
    if spells_has(after) {
        let i = choose|i: int| spells_has_at(after, i);
        if i + 3 < n {
            assert(spells_has_at(before, i));
        } else {
            assert(spells_has_at(selector, n - 3));
        }
    }
}

/// The text of the elements of a page that a CSS selector group matches:
/// one entry for each element, in the order in which the `scraper` crate
/// yields them, each the text nodes under the element joined in document
/// order; `None` where the selector is not a valid selector group.
pub uninterp spec fn selection(document: Seq<char>, selector: Seq<char>) -> Option<Seq<Seq<char>>>;

/// The error of `scraper::Selector::parse`. It is carried, never looked
/// into.
#[verifier::external_type_specification]
#[verifier::external_body]
pub struct ExSelectorErrorKind(scraper::error::SelectorErrorKind);

/// Parses the selector with `scraper::Selector::parse` and the page with
/// `scraper::Html::parse_document`, walks `Html::select` and joins
/// `ElementRef::text` of every match.
///
/// Assumed: the outcome depends on the two texts alone, which is what
/// [`selection`] names; an error comes back exactly where the selector
/// does not parse.
///
/// The preconditions leave out what the outside code cannot take. The
/// bound on the page keeps the parser's buffers, whose lengths are 32-bit,
/// in range. The matcher recurses once for each combinator and for each
/// level of nesting in the selector, which the bound on the selector keeps
/// shallow. Under `:has(..)` alone it recurses once for each level of the
/// page, which no bound on the selector could keep shallow: so a selector
/// that may name that pseudo-class is left out.
#[verifier::external_body]
fn select_text(document: &str, selector: &str) -> (found: Result<
    Vec<String>,
    scraper::error::SelectorErrorKind,
>)
    requires
        encode_utf8(document@).len() <= MAX_DOCUMENT_BYTES,
        is_tried(selector@),
    ensures
        match found {
            Ok(items) => selection(document@, selector@) == Some(items.deep_view()),
            Err(_) => selection(document@, selector@) is None,
        },
{
    let compiled = scraper::Selector::parse(selector)?;
    let html = scraper::Html::parse_document(document);
    Ok(html.select(&compiled).map(|element| element.text().collect()).collect())
}

/// The matches of a selector in a document, where the selector is tried
/// and valid.
pub open spec fn matches_of(document: Seq<char>, query: SelectorQuery) -> Option<Seq<Seq<char>>> {
    if is_tried(query.selector@) {
        selection(document, query.selector@)
    } else {
        None
    }
}

/// The one match of a selector, or the error that reports how many there
/// were.
pub open spec fn single_match(query: SelectorQuery, matches: Seq<Seq<char>>) -> Result<
    Seq<char>,
    AmbiguousSelection,
> {
    if matches.len() == 1 {
        Ok(matches[0])
    } else {
        Err(AmbiguousSelection { selector: query, match_count: matches.len() as usize })
    }
}

/// A selection succeeds on exactly one match and on nothing else: with no
/// match, or with two or more, it fails and reports their number.
pub proof fn lemma_single_match(query: SelectorQuery, matches: Seq<Seq<char>>)
    ensures
        single_match(query, matches) is Ok <==> matches.len() == 1,
        matches.len() == 1 ==> single_match(query, matches) == Ok::<Seq<char>, AmbiguousSelection>(
            matches[0],
        ),
        matches.len() != 1 && matches.len() <= usize::MAX ==> single_match(query, matches) == Err::<
            Seq<char>,
            AmbiguousSelection,
        >(AmbiguousSelection { selector: query, match_count: matches.len() as usize })
            && (single_match(query, matches)->Err_0).match_count == matches.len(),
{
}

/// What selecting exactly one element of a document gives.
pub open spec fn single_element_of(document: Seq<char>, query: SelectorQuery) -> Result<
    Seq<char>,
    SelectError,
> {
    match matches_of(document, query) {
        None => Err(SelectError::InvalidSelector(query)),
        Some(matches) => match single_match(query, matches) {
            Ok(text) => Ok(text),
            Err(ambiguous) => Err(SelectError::AmbiguousSelection(ambiguous)),
        },
    }
}

/// Selecting in a document succeeds exactly where a selector that is tried
/// and valid matches one element, and then gives that element's text;
/// with no match, or with two or more, it fails and reports their number.
/// A selector that is not tried, or not valid, is refused as such.
pub proof fn lemma_single_element_of(document: Seq<char>, query: SelectorQuery)
    ensures
        matches_of(document, query) is None <==> single_element_of(document, query) == Err::<
            Seq<char>,
            SelectError,
        >(SelectError::InvalidSelector(query)),
        matches_of(document, query) matches Some(matches) ==> {
            &&& single_element_of(document, query) is Ok <==> matches.len() == 1
            &&& matches.len() == 1 ==> single_element_of(document, query) == Ok::<
                Seq<char>,
                SelectError,
            >(matches[0])
            &&& matches.len() != 1 ==> single_element_of(document, query) == Err::<
                Seq<char>,
                SelectError,
            >(
                SelectError::AmbiguousSelection(
                    AmbiguousSelection { selector: query, match_count: matches.len() as usize },
                ),
            )
        },
{
}

/// Enforces that a selector matched exactly one element: hands out the one
/// match, and otherwise reports the selector with the number of matches.
pub fn single_element(query: SelectorQuery, matches: Vec<String>) -> (chosen: Result<
    String,
    AmbiguousSelection,
>)
    ensures
        match chosen {
            Ok(text) => single_match(query, matches.deep_view()) == Ok::<
                Seq<char>,
                AmbiguousSelection,
            >(text@),
            Err(ambiguous) => single_match(query, matches.deep_view()) == Err::<
                Seq<char>,
                AmbiguousSelection,
            >(ambiguous),
        },
{
    let mut matches = matches;
    let count = matches.len();
    if count != 1 {
        return Err(AmbiguousSelection { selector: query, match_count: count });
    }
    match matches.pop() {
        Some(text) => Ok(text),
        None => Err(AmbiguousSelection { selector: query, match_count: count }),
    }
}

/// Selects the one element of the document that the selector matches and
/// returns its text. A selector that is too long, or that may name the
/// relational pseudo-class `:has(..)`, is not tried.
pub fn get_single_element(document: &Document, query: SelectorQuery) -> (chosen: Result<
    String,
    SelectError,
>)
    ensures
        match chosen {
            Ok(text) => single_element_of(document@, query) == Ok::<Seq<char>, SelectError>(
                text@,
            ),
            Err(error) => single_element_of(document@, query) == Err::<Seq<char>, SelectError>(
                error,
            ),
        },
{
    proof {
        use_type_invariant(document);
    }
    if query.selector.as_bytes().len() > MAX_SELECTOR_BYTES || names_relational(query.selector) {
        return Err(SelectError::InvalidSelector(query));
    }
    match select_text(document.as_str(), query.selector) {
        Err(_) => Err(SelectError::InvalidSelector(query)),
        Ok(matches) => match single_element(query, matches) {
            Ok(text) => Ok(text),
            Err(ambiguous) => Err(SelectError::AmbiguousSelection(ambiguous)),
        },
    }
}

} // verus!
