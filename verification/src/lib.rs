//! The decision core of a small personal blog server: the token
//! validator and authenticator behind the single-secret cookie login,
//! the error funnel that turns every handler failure into a well-formed
//! response, and the page handlers' decisions — canonical redirects,
//! article rows becoming posts, the sitemap's entries.  Each public
//! function carries a contract saying exactly what response or value it
//! produces; the web framework, the template engine and the database
//! stay at the edges, behind narrow interfaces.

pub mod auth;
pub mod config;
pub mod errors;
pub mod pages;
pub mod post;
pub mod redirect;
pub mod render;
pub mod response;
pub mod sitemap;
