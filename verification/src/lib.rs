//! Availability monitoring for products on retailer web pages.
//!
//! A monitor owns the address of one product page. Given the outcome of
//! fetching that page it extracts the product's name and its availability
//! phrase with CSS selectors that must match exactly one element each, and
//! maps the phrase to a [`StockStatus`] through the retailer's phrase
//! table. Fetching and printing are left to the caller: the library works
//! on texts.
//!
//! - [`text`]: comparing, normalizing and rendering text;
//! - [`status`]: the three availabilities;
//! - [`classify`]: phrase tables and their lookup;
//! - [`select`]: documents and the selection of exactly one element;
//! - [`error`]: what can go wrong in an update, and how it is worded;
//! - [`monitor`]: the state of a product, the steps of an update and the
//!   [`Stock`] interface;
//! - [`sites`]: the retailers;
//! - [`runner`]: updating a batch of monitors.

pub mod classify;
pub mod error;
pub mod monitor;
pub mod runner;
pub mod select;
pub mod sites;
pub mod status;
pub mod text;

pub use error::{SimpleError, UpdateError};
pub use monitor::Stock;
pub use runner::{run_all, Report};
pub use sites::{Monitor, StrandbergGuitarsCom, ThomannDe};
pub use status::StockStatus;
