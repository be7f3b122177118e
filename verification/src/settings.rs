//! Where the signing and verification keys come from.

use vstd::prelude::*;
use crate::profile::key_value::clone_text;
use crate::profile::key_value::text_of;

verus! {

/// The source of one set of keys, and the key of each publisher.
#[derive(Debug, PartialEq, Eq)]
pub struct Keys {
    pub source: String,
    pub well_known_iam_endpoint: Option<String>,
    pub mozilliansorg_key: Option<String>,
    pub hris_key: Option<String>,
    pub ldap_key: Option<String>,
    pub cis_key: Option<String>,
    pub access_provider_key: Option<String>,
}

impl Default for Keys {
    /// No source and no key.
    fn default() -> (keys: Keys)
        ensures
            keys.source@ == Seq::<char>::empty(),
            keys.well_known_iam_endpoint is None,
            keys.mozilliansorg_key is None,
            keys.hris_key is None,
            keys.ldap_key is None,
            keys.cis_key is None,
            keys.access_provider_key is None,
    {
        Keys {
            source: String::new(),
            well_known_iam_endpoint: None,
            mozilliansorg_key: None,
            hris_key: None,
            ldap_key: None,
            cis_key: None,
            access_provider_key: None,
        }
    }
}

impl Clone for Keys {
    fn clone(&self) -> (copy: Keys)
        ensures
            copy == *self,
    {
        Keys {
            source: self.source.clone(),
            well_known_iam_endpoint: clone_text(&self.well_known_iam_endpoint),
            mozilliansorg_key: clone_text(&self.mozilliansorg_key),
            hris_key: clone_text(&self.hris_key),
            ldap_key: clone_text(&self.ldap_key),
            cis_key: clone_text(&self.cis_key),
            access_provider_key: clone_text(&self.access_provider_key),
        }
    }
}

/// The keys to sign with and the keys to verify with.
#[derive(Debug, PartialEq, Eq)]
pub struct CisSettings {
    pub sign_keys: Keys,
    pub verify_keys: Keys,
}

impl Default for CisSettings {
    /// No source and no key, to sign and to verify.
    fn default() -> (settings: CisSettings)
        ensures
            settings.sign_keys.source@ == Seq::<char>::empty(),
            text_of(settings.sign_keys.well_known_iam_endpoint) is None,
            settings.verify_keys.source@ == Seq::<char>::empty(),
            text_of(settings.verify_keys.well_known_iam_endpoint) is None,
    {
        CisSettings { sign_keys: Keys::default(), verify_keys: Keys::default() }
    }
}

impl Clone for CisSettings {
    fn clone(&self) -> (copy: CisSettings)
        ensures
            copy == *self,
    {
        CisSettings { sign_keys: self.sign_keys.clone(), verify_keys: self.verify_keys.clone() }
    }
}

} // verus!
