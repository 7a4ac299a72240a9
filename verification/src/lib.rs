//! Verified core of a mangadex scraper: the records that the mangadex API
//! answers with, the construction of the API request URLs, and the integer
//! bookkeeping of the grid that the graphical front end lays its cells out in.

pub mod grid;
pub mod mangadex_api;
pub mod web_url;
