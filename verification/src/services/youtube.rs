//! The video catalog: the search request and the steps of a download.

pub mod youtube_request_builder;
pub mod youtube_service;
