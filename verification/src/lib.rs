//! Feed synchronisation and publication.
//!
//! The crate polls syndication and video-channel feeds, works out which
//! items are new, and keeps the bookkeeping that guarantees every item is
//! handed to its destinations at most once.  Network and disk access live
//! with the caller; everything here is a function from plain values to
//! plain values with a machine-checked contract.

pub mod time;
pub mod text;
pub mod assoc;
pub mod config;
pub mod shape;
pub mod syndication;
pub mod post;
pub mod ledger;
pub mod selection;
pub mod feed;
pub mod youtube;
pub mod storage;
pub mod registry;
pub mod sweep;
pub mod json;
pub mod web;
pub mod oauth;
pub mod template;
pub mod publishers;
