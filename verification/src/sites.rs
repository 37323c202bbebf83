//! The retailers whose product pages can be monitored.

use crate::classify::{agrees, lists, status_of_key, ClassificationRule};
use crate::error::{SimpleError, UpdateError};
use crate::monitor::{fresh, Product, ProductView, Site, SiteView, Stock};
use crate::select::SelectorQuery;
use crate::status::StockStatus;
use vstd::prelude::*;

verus! {

/// The pages of strandbergguitars.com: the name is the heading of the
/// product information, the availability the paragraph under the chosen
/// variation, in English.
pub open spec fn strandberg_guitars_com() -> SiteView {
    SiteView {
        name_selector: SelectorQuery {
            selector: "div.product-info-wrapper>h1",
            label: "product name",
        },
        stock_selector: SelectorQuery {
            selector: "div.woocommerce-variation-availability>p",
            label: "availability",
        },
        rules: seq![
            ClassificationRule { phrase: "out of stock", status: StockStatus::OutOfStock },
            ClassificationRule { phrase: "in stock", status: StockStatus::InStock },
            ClassificationRule { phrase: "only 1 in stock", status: StockStatus::InStock },
            ClassificationRule { phrase: "only 2 in stock", status: StockStatus::InStock },
        ],
    }
}

/// The pages of thomann.de in Danish: the name is the heading of the
/// product title, the availability the text beside the price. A product
/// that is promised within weeks is not in stock.
pub open spec fn thomann_de() -> SiteView {
    SiteView {
        name_selector: SelectorQuery { selector: "div.product-title>h1", label: "product name" },
        stock_selector: SelectorQuery {
            selector: "div.price-and-availability__tooltip-wrapper>span",
            label: "availability",
        },
        rules: seq![
            ClassificationRule { phrase: "ikke på lager", status: StockStatus::OutOfStock },
            ClassificationRule {
                phrase: "på lager indenfor 3-4 uger",
                status: StockStatus::OutOfStock,
            },
            ClassificationRule {
                phrase: "på lager indenfor 1-2 uger",
                status: StockStatus::OutOfStock,
            },
            ClassificationRule { phrase: "på lager", status: StockStatus::InStock },
        ],
    }
}

/// In both tables every phrase stands for the status of its rule: no
/// phrase is listed twice, so none is ambiguous.
pub proof fn lemma_tables_are_unambiguous(site: SiteView, i: int)
    requires
        site == strandberg_guitars_com() || site == thomann_de(),
        0 <= i < site.rules.len(),
    ensures
        status_of_key(site.rules, site.rules[i].phrase@) == site.rules[i].status,
{
    reveal_strlit("out of stock");
    reveal_strlit("in stock");
    reveal_strlit("only 1 in stock");
    reveal_strlit("only 2 in stock");
    reveal_strlit("ikke på lager");
    reveal_strlit("på lager indenfor 3-4 uger");
    reveal_strlit("på lager indenfor 1-2 uger");
    reveal_strlit("på lager");
    let rules = site.rules;
    let key = rules[i].phrase@;
    // The phrases of a table differ in length, but for two pairs that
    // differ in a digit.
    assert("out of stock"@.len() == 12 && "in stock"@.len() == 8);
    assert("only 1 in stock"@.len() == 15 && "only 2 in stock"@.len() == 15);
    assert("only 1 in stock"@[5] != "only 2 in stock"@[5]);
    assert("ikke på lager"@.len() == 13 && "på lager"@.len() == 8);
    assert("på lager indenfor 3-4 uger"@.len() == 26);
    assert("på lager indenfor 1-2 uger"@.len() == 26);
    assert("på lager indenfor 3-4 uger"@[18] != "på lager indenfor 1-2 uger"@[18]);
    assert forall|j: int| 0 <= j < rules.len() && (#[trigger] rules[j]).phrase@ == key implies j
        == i by {}
}

/// A monitor of one product of strandbergguitars.com.
#[derive(Debug)]
pub struct StrandbergGuitarsCom {
    product: Product,
}

impl StrandbergGuitarsCom {
    /// A monitor of the product whose page has the given address.
    pub fn new(url: String) -> (monitor: StrandbergGuitarsCom)
        ensures
            monitor.product() == fresh(url@),
    {
        StrandbergGuitarsCom { product: Product::new(url) }
    }

    /// The selectors and the phrase table of the site.
    pub fn site() -> (site: Site)
        ensures
            site@ == strandberg_guitars_com(),
    {
        let mut rules: Vec<ClassificationRule> = Vec::new();
        rules.push(
            ClassificationRule { phrase: "out of stock", status: StockStatus::OutOfStock },
        );
        rules.push(ClassificationRule { phrase: "in stock", status: StockStatus::InStock });
        rules.push(
            ClassificationRule { phrase: "only 1 in stock", status: StockStatus::InStock },
        );
        rules.push(
            ClassificationRule { phrase: "only 2 in stock", status: StockStatus::InStock },
        );
        assert(rules@ =~= strandberg_guitars_com().rules);
        Site {
            name_selector: SelectorQuery {
                selector: "div.product-info-wrapper>h1",
                label: "product name",
            },
            stock_selector: SelectorQuery {
                selector: "div.woocommerce-variation-availability>p",
                label: "availability",
            },
            rules,
        }
    }
}

impl Stock for StrandbergGuitarsCom {
    closed spec fn product(&self) -> ProductView {
        self.product@
    }

    open spec fn site(&self) -> SiteView {
        strandberg_guitars_com()
    }

    fn url(&self) -> (url: &str) {
        self.product.url()
    }

    fn update(&mut self, fetched: Result<String, SimpleError>) -> (result: Result<
        (),
        UpdateError,
    >) {
        let site = Self::site();
        self.product.update(&site, fetched)
    }

    fn is_in_stock(&self) -> (available: bool) {
        self.product.is_in_stock()
    }

    fn get_status(&self) -> (line: String) {
        self.product.get_status()
    }
}

/// A monitor of one product of thomann.de.
#[derive(Debug)]
pub struct ThomannDe {
    product: Product,
}

impl ThomannDe {
    /// A monitor of the product whose page has the given address.
    pub fn new(url: String) -> (monitor: ThomannDe)
        ensures
            monitor.product() == fresh(url@),
    {
        ThomannDe { product: Product::new(url) }
    }

    /// The selectors and the phrase table of the site.
    pub fn site() -> (site: Site)
        ensures
            site@ == thomann_de(),
    {
        let mut rules: Vec<ClassificationRule> = Vec::new();
        rules.push(
            ClassificationRule { phrase: "ikke på lager", status: StockStatus::OutOfStock },
        );
        rules.push(
            ClassificationRule {
                phrase: "på lager indenfor 3-4 uger",
                status: StockStatus::OutOfStock,
            },
        );
        rules.push(
            ClassificationRule {
                phrase: "på lager indenfor 1-2 uger",
                status: StockStatus::OutOfStock,
            },
        );
        rules.push(ClassificationRule { phrase: "på lager", status: StockStatus::InStock });
        assert(rules@ =~= thomann_de().rules);
        Site {
            name_selector: SelectorQuery {
                selector: "div.product-title>h1",
                label: "product name",
            },
            stock_selector: SelectorQuery {
                selector: "div.price-and-availability__tooltip-wrapper>span",
                label: "availability",
            },
            rules,
        }
    }
}

impl Stock for ThomannDe {
    closed spec fn product(&self) -> ProductView {
        self.product@
    }

    open spec fn site(&self) -> SiteView {
        thomann_de()
    }

    fn url(&self) -> (url: &str) {
        self.product.url()
    }

    fn update(&mut self, fetched: Result<String, SimpleError>) -> (result: Result<
        (),
        UpdateError,
    >) {
        let site = Self::site();
        self.product.update(&site, fetched)
    }

    fn is_in_stock(&self) -> (available: bool) {
        self.product.is_in_stock()
    }

    fn get_status(&self) -> (line: String) {
        self.product.get_status()
    }
}

} // verus!

verus! {

/// A monitor of one product, on whichever site it is sold.
#[derive(Debug)]
pub enum Monitor {
    /// A product of strandbergguitars.com.
    StrandbergGuitarsCom(StrandbergGuitarsCom),
    /// A product of thomann.de.
    ThomannDe(ThomannDe),
}

impl Stock for Monitor {
    open spec fn product(&self) -> ProductView {
        match self {
            Monitor::StrandbergGuitarsCom(monitor) => monitor.product(),
            Monitor::ThomannDe(monitor) => monitor.product(),
        }
    }

    open spec fn site(&self) -> SiteView {
        match self {
            Monitor::StrandbergGuitarsCom(monitor) => monitor.site(),
            Monitor::ThomannDe(monitor) => monitor.site(),
        }
    }

    fn url(&self) -> (url: &str) {
        match self {
            Monitor::StrandbergGuitarsCom(monitor) => monitor.url(),
            Monitor::ThomannDe(monitor) => monitor.url(),
        }
    }

    fn update(&mut self, fetched: Result<String, SimpleError>) -> (result: Result<
        (),
        UpdateError,
    >) {
        match self {
            Monitor::StrandbergGuitarsCom(monitor) => monitor.update(fetched),
            Monitor::ThomannDe(monitor) => monitor.update(fetched),
        }
    }

    fn is_in_stock(&self) -> (available: bool) {
        match self {
            Monitor::StrandbergGuitarsCom(monitor) => monitor.is_in_stock(),
            Monitor::ThomannDe(monitor) => monitor.is_in_stock(),
        }
    }

    fn get_status(&self) -> (line: String) {
        match self {
            Monitor::StrandbergGuitarsCom(monitor) => monitor.get_status(),
            Monitor::ThomannDe(monitor) => monitor.get_status(),
        }
    }
}

} // verus!
