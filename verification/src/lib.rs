//! Authorization and versioned storage of federated identity profiles.
//!
//! A profile is a document of independently signed attributes. Each attribute
//! may only be created or changed by the publishers that the rule set names for
//! it. [`profile::update::update`] merges a proposed document into the current
//! one attribute by attribute, and [`db::change::store_profile`] persists the
//! result under a compare-and-set on a bounded version counter.

pub mod db;
pub mod error;
pub mod profile;
pub mod settings;
