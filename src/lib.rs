//! Typed request projection and response decoding for three search services:
//! a programmable web search engine, a video platform's search endpoint and a
//! generative-language endpoint.
pub mod config;
pub mod google;
pub mod history;
pub mod json;
pub mod params;
pub mod unified;
pub mod youtube;
pub mod youtube_options;
