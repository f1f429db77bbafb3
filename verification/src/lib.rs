//! Decoder for the positional-array JSON payloads behind a search engine's
//! local-results endpoint, together with the crawl bookkeeping that feeds it.
//!
//! The wire format has no published schema: each listing is a long, sparsely
//! populated array whose field meanings were determined empirically.  The
//! decoder extracts the known fields defensively and reports any unexpected
//! non-null data as schema drift instead of silently dropping it.
#![verifier::loop_isolation(false)]
use vstd::prelude::*;

pub mod json;
pub mod parse;
pub mod textutil;
pub mod envelope;
pub mod model;
pub mod decode;
pub mod decode_blocks;
pub mod decode_phone;
pub mod decode_service;
pub mod decode_feature;
pub mod decode_hours;
pub mod decode_photo;
pub mod entity;
pub mod ingest;
pub mod laws;
pub mod weburl;
pub mod settings;
pub mod weblog;
pub mod manifest;
pub mod client;
pub mod snappath;
pub mod path_utils;
