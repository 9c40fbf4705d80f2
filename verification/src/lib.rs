pub mod text;
pub mod domain;
pub mod date;
pub mod json;
pub mod web_url;
pub mod digest;
pub mod xml;
pub mod html;
pub mod normalization;
pub mod feed_xml;
pub mod news;
pub mod government;
pub mod change_feed;
pub mod config;
pub mod crawl_config;
pub mod change_detection;
pub mod fetcher;
pub mod summarizer;
pub mod storage;
pub mod ingestion;
pub mod records;
pub mod scheduler;
pub mod json_codec;
