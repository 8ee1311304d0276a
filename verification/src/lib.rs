//! Verified core of the bridge gateway: the PROXY protocol v2 header parser,
//! request-policy decisions of the web middlewares, the query-string form
//! parsers, the data models and the notebook lifecycle rules.
use vstd::prelude::*;

pub mod auth;
pub mod config;
pub mod db;
pub mod errors;
pub mod frontend;
pub mod kube;
pub mod logger;
pub mod templating;
pub mod text;
pub mod web;

verus! {

} // verus!
