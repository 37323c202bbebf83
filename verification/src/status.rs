//! The canonical availability of a product.

use vstd::prelude::*;
use vstd::string::*;

verus! {

/// Whether a product can be bought right now, as far as its page tells.
#[derive(Clone, Copy, Debug, PartialEq, Eq, Structural)]
pub enum StockStatus {
    /// Nothing reliable is known.
    Unknown,
    /// The retailer reports the product as available.
    InStock,
    /// The retailer reports the product as unavailable.
    OutOfStock,
}

impl Default for StockStatus {
    /// Nothing is known before a page has been read.
    fn default() -> (status: StockStatus)
        ensures
            status == StockStatus::Unknown,
    {
        StockStatus::Unknown
    }
}

impl StockStatus {
    /// The lower-case label under which a status appears in status lines.
    pub open spec fn label(self) -> Seq<char> {
        match self {
            StockStatus::Unknown => "unknown"@,
            StockStatus::InStock => "in stock"@,
            StockStatus::OutOfStock => "out of stock"@,
        }
    }

    /// Renders the status as its label.
    pub fn to_string(&self) -> (text: String)
        ensures
            text@ == self.label(),
    {
        match self {
            StockStatus::Unknown => "unknown".to_owned(),
            StockStatus::InStock => "in stock".to_owned(),
            StockStatus::OutOfStock => "out of stock".to_owned(),
        }
    }
}

} // verus!
