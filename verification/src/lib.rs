//! Windowed on-demand data loading.
//!
//! This library maintains a sparse cache of list items behind a reactively
//! changing window of interest. It decides which index ranges still have to be
//! fetched, reconciles asynchronous load results against a generation counter
//! so that stale responses are discarded, normalizes several shapes of data
//! source to one range-based contract, and derives pagination state and page
//! controls from the cached totals.
//!
//! The host application owns the event loop and the actual transport: it asks
//! the [`driver::LoadDriver`] what to fetch, performs the fetch, and hands the
//! outcome back. Everything that decides or computes lives here and is
//! verified.

pub mod cache;
pub mod controls;
pub mod driver;
pub mod item_state;
pub mod loader;
pub mod pagination;
pub mod window;
