//! The decisions of an archiver for posts and their comments, verified.
//!
//! A post is a tree of content items. This crate decides in which order the
//! items are processed (`content`), what is to be done for each of them
//! (`walker`), when and where an asset is fetched and when a failed attempt
//! is repeated (`download`), which text is appended to the document of a
//! post and which is skipped because it stands there already (`document`,
//! `ledger`), how the comments of a post are flattened into items
//! (`comments`), and what the finished document looks like (`normalize`).
//!
//! The crate touches neither the network nor the file system. Its functions
//! take plain values and return plain values; a program around it carries
//! out what they return. Every contract speaks of text as a `Seq<char>` and
//! of a data type by its mathematical form, its view. The few calls that
//! leave the crate stand in `outside`; they are the only items whose
//! contracts are assumed.

pub mod comments;
pub mod config;
pub mod content;
pub mod document;
pub mod download;
pub mod gui;
pub mod ledger;
pub mod lines;
pub mod links;
pub mod menu;
pub mod names;
pub mod normalize;
pub mod numbers;
pub mod outside;
pub mod parser;
pub mod posts;
pub mod report;
pub mod text;
pub mod url_context;
pub mod walker;
