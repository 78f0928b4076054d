//! A verified model of a one-page video browser: a list of video records is
//! fetched once, decoded from a JSON array, and shown as a clickable list of
//! titles with an optional detail panel. The fetch lifecycle, the payload
//! decoder, the update rule and the rendering policy live here; the browser
//! shell that performs the HTTP request and paints the markup stays outside.

pub mod payload;
pub mod state;
pub mod video;
pub mod view;
