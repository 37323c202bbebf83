//! The state of one monitored product and the steps of an update.

use crate::classify::{classification, classify, ClassificationRule};
use crate::error::{SimpleError, UpdateError};
use crate::select::{get_single_element, parse_error, single_element_of, Document, SelectorQuery};
use crate::status::StockStatus;
use vstd::prelude::*;
use vstd::string::*;

verus! {

/// What tells one retailer's pages from another's: where the product's
/// name and its availability phrase stand, and what the phrases mean.
#[derive(Debug)]
pub struct Site {
    /// Selects the element that holds the product's name.
    pub name_selector: SelectorQuery,
    /// Selects the element that holds the availability phrase.
    pub stock_selector: SelectorQuery,
    /// The phrase table.
    pub rules: Vec<ClassificationRule>,
}

/// The model of a [`Site`].
pub struct SiteView {
    /// Selects the element that holds the product's name.
    pub name_selector: SelectorQuery,
    /// Selects the element that holds the availability phrase.
    pub stock_selector: SelectorQuery,
    /// The phrase table.
    pub rules: Seq<ClassificationRule>,
}

impl View for Site {
    type V = SiteView;

    open spec fn view(&self) -> SiteView {
        SiteView {
            name_selector: self.name_selector,
            stock_selector: self.stock_selector,
            rules: self.rules@,
        }
    }
}

/// The model of a monitored product.
pub struct ProductView {
    /// The address of the product's page.
    pub url: Seq<char>,
    /// The product's name, once a page has shown it.
    pub name: Option<Seq<char>>,
    /// The availability that the last update found.
    pub status: StockStatus,
}

/// A product as it is before its first update.
pub open spec fn fresh(url: Seq<char>) -> ProductView {
    ProductView { url, name: None, status: StockStatus::Unknown }
}

/// What an update leaves behind: the product, and whether it succeeded.
pub struct UpdateOutcome {
    /// The product after the update.
    pub product: ProductView,
    /// Nothing, or the error of the step that failed.
    pub result: Result<(), UpdateError>,
}

/// The outcome of a fetch as an update reads it.
pub open spec fn page_of(fetched: Result<String, SimpleError>) -> Result<Seq<char>, SimpleError> {
    match fetched {
        Ok(page) => Ok(page@),
        Err(cause) => Err(cause),
    }
}

/// One update of a product. The status is reset first. Then the page must
/// have been fetched and be accepted as a document; the name selector must
/// match once, which sets the name; the availability selector must match
/// once, and its phrase sets the status. The first step that fails ends
/// the update with its error.
pub open spec fn updated(
    site: SiteView,
    before: ProductView,
    fetched: Result<Seq<char>, SimpleError>,
) -> UpdateOutcome {
    let reset = ProductView { status: StockStatus::Unknown, ..before };
    match fetched {
        Err(cause) => UpdateOutcome { product: reset, result: Err(UpdateError::Fetch(cause)) },
        Ok(page) => match parse_error(page) {
            Some(cause) => UpdateOutcome { product: reset, result: Err(UpdateError::Parse(cause)) },
            None => match single_element_of(page, site.name_selector) {
                Err(cause) => UpdateOutcome {
                    product: reset,
                    result: Err(UpdateError::Select(cause)),
                },
                Ok(name) => {
                    let named = ProductView { name: Some(name), ..reset };
                    match single_element_of(page, site.stock_selector) {
                        Err(cause) => UpdateOutcome {
                            product: named,
                            result: Err(UpdateError::Select(cause)),
                        },
                        Ok(phrase) => UpdateOutcome {
                            product: ProductView {
                                status: classification(site.rules, phrase),
                                ..named
                            },
                            result: Ok(()),
                        },
                    }
                },
            },
        },
    }
}

/// An update never touches the address, and a failed update leaves the
/// status `Unknown`, whatever it was before: no earlier status survives a
/// failure. Where the page could not be fetched, the name is left as it
/// was, and the error is the transport's.
pub proof fn lemma_failed_update(
    site: SiteView,
    before: ProductView,
    fetched: Result<Seq<char>, SimpleError>,
)
    ensures
        updated(site, before, fetched).product.url == before.url,
        updated(site, before, fetched).result is Err ==> updated(
            site,
            before,
            fetched,
        ).product.status == StockStatus::Unknown,
        fetched is Err ==> updated(site, before, fetched) == (UpdateOutcome {
            product: ProductView { status: StockStatus::Unknown, ..before },
            result: Err(UpdateError::Fetch(fetched->Err_0)),
        }),
{
}

/// A successful update sets the name to the one element that the name
/// selector matches, and the status to the classification of the one
/// element that the availability selector matches.
pub proof fn lemma_successful_update(
    site: SiteView,
    before: ProductView,
    fetched: Result<Seq<char>, SimpleError>,
)
    requires
        updated(site, before, fetched).result is Ok,
    ensures
        fetched is Ok,
        parse_error(fetched->Ok_0) is None,
        single_element_of(fetched->Ok_0, site.name_selector) is Ok,
        single_element_of(fetched->Ok_0, site.stock_selector) is Ok,
        updated(site, before, fetched).product == (ProductView {
            url: before.url,
            name: Some(single_element_of(fetched->Ok_0, site.name_selector)->Ok_0),
            status: classification(
                site.rules,
                single_element_of(fetched->Ok_0, site.stock_selector)->Ok_0,
            ),
        }),
{
}

/// The line that reports a product's status.
pub open spec fn description(product: ProductView) -> Seq<char> {
    match product.name {
        Some(name) => "Status for "@ + name + " is "@ + product.status.label(),
        None => "Status for product with url "@ + product.url + " is "@
            + product.status.label(),
    }
}

/// A product that was never updated is reported by its address, with the
/// status `unknown`.
pub proof fn lemma_fresh_description(url: Seq<char>)
    ensures
        description(fresh(url)) == "Status for product with url "@ + url + " is unknown"@,
{
    reveal_strlit(" is ");
    reveal_strlit("unknown");
    reveal_strlit(" is unknown");
}

/// The state that every monitor keeps, whatever its site.
#[derive(Debug)]
pub struct Product {
    stock_status: StockStatus,
    name: Option<String>,
    url: String,
}

impl View for Product {
    type V = ProductView;

    closed spec fn view(&self) -> ProductView {
        ProductView {
            url: self.url@,
            name: match self.name {
                Some(name) => Some(name@),
                None => None,
            },
            status: self.stock_status,
        }
    }
}

impl Product {
    /// A product that is known by the address of its page only.
    pub fn new(url: String) -> (product: Product)
        ensures
            product@ == fresh(url@),
    {
        Product { stock_status: StockStatus::Unknown, name: None, url }
    }

    /// The address of the product's page.
    pub fn url(&self) -> (url: &str)
        ensures
            url@ == self@.url,
    {
        self.url.as_str()
    }

    /// Brings the product up to date from the outcome of fetching its page.
    pub fn update(&mut self, site: &Site, fetched: Result<String, SimpleError>) -> (result: Result<
        (),
        UpdateError,
    >)
        ensures
            final(self)@ == updated(site@, old(self)@, page_of(fetched)).product,
            result == updated(site@, old(self)@, page_of(fetched)).result,
    {
        self.stock_status = StockStatus::Unknown;
        let page = match fetched {
            Ok(page) => page,
            Err(cause) => {
                return Err(UpdateError::Fetch(cause));
            },
        };
        let document = match Document::parse(page) {
            Ok(document) => document,
            Err(cause) => {
                return Err(UpdateError::Parse(cause));
            },
        };
        let name = match get_single_element(&document, site.name_selector) {
            Ok(name) => name,
            Err(cause) => {
                return Err(UpdateError::Select(cause));
            },
        };
        self.name = Some(name);
        let phrase = match get_single_element(&document, site.stock_selector) {
            Ok(phrase) => phrase,
            Err(cause) => {
                return Err(UpdateError::Select(cause));
            },
        };
        self.stock_status = classify(&site.rules, phrase.as_str());
        Ok(())
    }

    /// Tells whether the last update found the product available.
    pub fn is_in_stock(&self) -> (available: bool)
        ensures
            available == (self@.status == StockStatus::InStock),
    {
        self.stock_status == StockStatus::InStock
    }

    /// The line that reports the product's status.
    pub fn get_status(&self) -> (line: String)
        ensures
            line@ == description(self@),
    {
        let mut line = match &self.name {
            Some(name) => {
                let mut line = "Status for ".to_owned();
                line.append(name.as_str());
                line
            },
            None => {
                let mut line = "Status for product with url ".to_owned();
                line.append(self.url.as_str());
                line
            },
        };
        line.append(" is ");
        line.append(self.stock_status.to_string().as_str());
        line
    }
}

/// A monitor of one product on one site.
pub trait Stock {
    /// The product as the monitor knows it.
    spec fn product(&self) -> ProductView;

    /// The site whose pages the monitor reads.
    spec fn site(&self) -> SiteView;

    /// The address of the product's page.
    fn url(&self) -> (url: &str)
        ensures
            url@ == self.product().url,
    ;

    /// Brings the monitor up to date from the outcome of fetching its page.
    fn update(&mut self, fetched: Result<String, SimpleError>) -> (result: Result<(), UpdateError>)
        ensures
            final(self).site() == old(self).site(),
            final(self).product() == updated(
                old(self).site(),
                old(self).product(),
                page_of(fetched),
            ).product,
            result == updated(old(self).site(), old(self).product(), page_of(fetched)).result,
    ;

    /// Tells whether the last update found the product available.
    fn is_in_stock(&self) -> (available: bool)
        ensures
            available == (self.product().status == StockStatus::InStock),
    ;

    /// The line that reports the product's status.
    fn get_status(&self) -> (line: String)
        ensures
            line@ == description(self.product()),
    ;
}

} // verus!
