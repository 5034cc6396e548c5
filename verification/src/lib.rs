//! Compare game prices across storefront search pages.
//!
//! The library takes the raw HTML of each storefront's search results,
//! extracts one record per result row, normalizes the price, currency and
//! discount fields, and reconciles the per-source result sets into a single
//! comparison keyed by a case-insensitive canonical name.

pub mod adapters;
pub mod aggregate;
pub mod dom;
pub mod record;
pub mod text;
