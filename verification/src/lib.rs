//! Verified core of a two-stage media harvester.
//!
//! The first stage crawls the listing pages of a tag and leaves, for every
//! item it has not seen, a manifest of the item's media addresses. The
//! second stage walks the tree of manifests, has each one fetched, and folds
//! the item directories that are complete into archives of bounded size,
//! which are uploaded while their sources are removed.
//!
//! Nothing in this crate performs I/O. Requests, directory checks, child
//! processes and rests are plain values handed to a driver, which reports
//! each outcome back as an event:
//!
//! * [`api`]: the crawler, [`api::Cos`];
//! * [`crawl`]: the crawl as a state machine, and what holds of every crawl;
//! * [`manifest`]: what a manifest holds;
//! * [`dup`]: the compactor, [`dup::Dup`];
//! * [`walk`]: the compactor's walk as a state machine, the command lines of
//!   its tools, and what holds of every walk;
//! * [`session`]: the cookie jar kept between runs and the requests sent;
//! * [`text`]: decimal numerals, page counts and substring search.
//!
//! Each of the two machines comes with its transition function as a spec
//! function, and with proofs of what holds of every run.

pub mod api;
pub mod crawl;
pub mod dup;
pub mod manifest;
pub mod session;
pub mod text;
pub mod walk;
