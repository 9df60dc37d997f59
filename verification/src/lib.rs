//! Scraping engine for manga reader sources: query building, pagination,
//! entity parsing, chapter numbering and page image descrambling.

pub mod comicdays;
pub mod dates;
pub mod decimal;
pub mod gigaviewer;
pub mod json;
pub mod mangabox;
pub mod mangadex;
pub mod mangakakalot;
pub mod manganato;
pub mod mangareader;
pub mod model;
pub mod omegascans;
pub mod paging;
pub mod query;
pub mod rawotaku;
pub mod sets;
pub mod shonenjumpplus;
pub mod text;
pub mod weebcentral;
