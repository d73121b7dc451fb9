//! Turns a few websites into RSS feeds: the paid articles of lwn.net once
//! they become freely available, and the CISA catalogue of known exploited
//! vulnerabilities.
//!
//! The library holds the decisions and the data handling: which catalogue
//! entries are new, what rows are stored, which headlines are paid
//! articles, where an article announces its release date, and what the
//! published feeds hold. Fetching pages, talking to the database and
//! writing files is left to the program around it.
pub mod dates;
pub mod error;
pub mod feed;
pub mod html;
pub mod json_doc;
pub mod kev;
pub mod lwn;
pub mod release;
pub mod source;
mod outside_types;
