//! Deep links into the Cloudflare dashboard.
//!
//! A [`command::Command`] names a dashboard page, with the zone or resource it
//! is about; [`command::resolve`] turns it into the page's URL. The
//! [`launch`] module decides what is reported once the browser was asked to
//! open that URL.

pub mod command;
pub mod launch;
pub mod url;
