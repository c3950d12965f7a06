//! Credentials for the two remote services, handed to each component as an
//! explicit value.

use crate::text::optional_text;
use vstd::prelude::*;

verus! {

/// The credentials as texts.
pub struct ConfigView {
    pub transpose_api_key: Option<Seq<char>>,
    pub urlscan_api_key: Option<Seq<char>>,
}

/// The API keys of the query service and of the scan service; either may be
/// missing.
pub struct Config {
    transpose_api_key: Option<String>,
    urlscan_api_key: Option<String>,
}

impl View for Config {
    type V = ConfigView;

    closed spec fn view(&self) -> ConfigView {
        ConfigView {
            transpose_api_key: optional_text(self.transpose_api_key),
            urlscan_api_key: optional_text(self.urlscan_api_key),
        }
    }
}

/// A copy of an optional key.
fn copy_key(key: &Option<String>) -> (r: Option<String>)
    ensures
        r == *key,
{
    match key {
        Some(k) => Some(k.clone()),
        None => None,
    }
}

impl Config {
    /// A configuration that holds the two keys as given.
    pub fn new(transpose_api_key: Option<String>, urlscan_api_key: Option<String>) -> (c: Config)
        ensures
            c@.transpose_api_key == optional_text(transpose_api_key),
            c@.urlscan_api_key == optional_text(urlscan_api_key),
    {
        Config { transpose_api_key, urlscan_api_key }
    }

    /// The key of the query service.
    pub fn transpose_api_key(&self) -> (key: Option<String>)
        ensures
            optional_text(key) == self@.transpose_api_key,
    {
        copy_key(&self.transpose_api_key)
    }

    /// The key of the scan service.
    pub fn urlscan_api_key(&self) -> (key: Option<String>)
        ensures
            optional_text(key) == self@.urlscan_api_key,
    {
        copy_key(&self.urlscan_api_key)
    }

    /// Replaces the key of the query service and leaves the other one.
    pub fn set_transpose_api_key(&mut self, key: Option<String>)
        ensures
            final(self)@.transpose_api_key == optional_text(key),
            final(self)@.urlscan_api_key == old(self)@.urlscan_api_key,
    {
        self.transpose_api_key = key;
    }

    /// Replaces the key of the scan service and leaves the other one.
    pub fn set_urlscan_api_key(&mut self, key: Option<String>)
        ensures
            final(self)@.urlscan_api_key == optional_text(key),
            final(self)@.transpose_api_key == old(self)@.transpose_api_key,
    {
        self.urlscan_api_key = key;
    }
}

} // verus!
