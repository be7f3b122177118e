//! The paths of the attributes of a profile, in the order in which an update
//! walks them.

use vstd::prelude::*;

verus! {

/// An attribute of the identities of a profile.
#[derive(Clone, Copy, Debug, PartialEq, Eq, Structural, Hash)]
pub enum IdentityPath {
    GithubIdV3,
    GithubIdV4,
    GithubPrimaryEmail,
    MozilliansorgId,
    BugzillaMozillaOrgId,
    BugzillaMozillaOrgPrimaryEmail,
    MozillaLdapId,
    MozillaLdapPrimaryEmail,
    MozillaPosixId,
    GoogleOauth2Id,
    GooglePrimaryEmail,
    FirefoxAccountsId,
    FirefoxAccountsPrimaryEmail,
    Custom1PrimaryEmail,
    Custom2PrimaryEmail,
    Custom3PrimaryEmail,
}

/// An attribute of the access information of a profile: one per provider.
#[derive(Clone, Copy, Debug, PartialEq, Eq, Structural, Hash)]
pub enum AccessPath {
    AccessProvider,
    Ldap,
    Hris,
    Mozilliansorg,
}

/// An attribute of the staff information of a profile.
#[derive(Clone, Copy, Debug, PartialEq, Eq, Structural, Hash)]
pub enum StaffPath {
    Manager,
    Director,
    Staff,
    Title,
    Team,
    CostCenter,
    WorkerType,
    WprDeskNumber,
    OfficeLocation,
}

/// An attribute of a profile: one of its own, or one of a group.
#[derive(Clone, Copy, Debug, PartialEq, Eq, Structural, Hash)]
pub enum AttributePath {
    Uuid,
    UserId,
    PrimaryUsername,
    LoginMethod,
    Active,
    LastModified,
    Created,
    Usernames,
    Pronouns,
    FirstName,
    LastName,
    AlternativeName,
    PrimaryEmail,
    SshPublicKeys,
    PgpPublicKeys,
    FunTitle,
    Description,
    Location,
    Timezone,
    Languages,
    Tags,
    Picture,
    Uris,
    PhoneNumbers,
    Identities(IdentityPath),
    AccessInformation(AccessPath),
    StaffInformation(StaffPath),
}

/// The number of attributes of a profile.
pub open spec fn attribute_count() -> nat {
    53
}

impl IdentityPath {
    /// The place of the path among the identities, counted from zero.
    pub open spec fn index(self) -> nat {
        match self {
            IdentityPath::GithubIdV3 => 0,
            IdentityPath::GithubIdV4 => 1,
            IdentityPath::GithubPrimaryEmail => 2,
            IdentityPath::MozilliansorgId => 3,
            IdentityPath::BugzillaMozillaOrgId => 4,
            IdentityPath::BugzillaMozillaOrgPrimaryEmail => 5,
            IdentityPath::MozillaLdapId => 6,
            IdentityPath::MozillaLdapPrimaryEmail => 7,
            IdentityPath::MozillaPosixId => 8,
            IdentityPath::GoogleOauth2Id => 9,
            IdentityPath::GooglePrimaryEmail => 10,
            IdentityPath::FirefoxAccountsId => 11,
            IdentityPath::FirefoxAccountsPrimaryEmail => 12,
            IdentityPath::Custom1PrimaryEmail => 13,
            IdentityPath::Custom2PrimaryEmail => 14,
            IdentityPath::Custom3PrimaryEmail => 15,
        }
    }

    /// The path at the given place; the last one where the place is past the end.
    pub open spec fn at(place: nat) -> IdentityPath {
        if place == 0 {
            IdentityPath::GithubIdV3
        } else if place == 1 {
            IdentityPath::GithubIdV4
        } else if place == 2 {
            IdentityPath::GithubPrimaryEmail
        } else if place == 3 {
            IdentityPath::MozilliansorgId
        } else if place == 4 {
            IdentityPath::BugzillaMozillaOrgId
        } else if place == 5 {
            IdentityPath::BugzillaMozillaOrgPrimaryEmail
        } else if place == 6 {
            IdentityPath::MozillaLdapId
        } else if place == 7 {
            IdentityPath::MozillaLdapPrimaryEmail
        } else if place == 8 {
            IdentityPath::MozillaPosixId
        } else if place == 9 {
            IdentityPath::GoogleOauth2Id
        } else if place == 10 {
            IdentityPath::GooglePrimaryEmail
        } else if place == 11 {
            IdentityPath::FirefoxAccountsId
        } else if place == 12 {
            IdentityPath::FirefoxAccountsPrimaryEmail
        } else if place == 13 {
            IdentityPath::Custom1PrimaryEmail
        } else if place == 14 {
            IdentityPath::Custom2PrimaryEmail
        } else {
            IdentityPath::Custom3PrimaryEmail
        }
    }
}

impl AccessPath {
    /// The place of the path among the providers, counted from zero.
    pub open spec fn index(self) -> nat {
        match self {
            AccessPath::AccessProvider => 0,
            AccessPath::Ldap => 1,
            AccessPath::Hris => 2,
            AccessPath::Mozilliansorg => 3,
        }
    }

    /// The path at the given place; the last one where the place is past the end.
    pub open spec fn at(place: nat) -> AccessPath {
        if place == 0 {
            AccessPath::AccessProvider
        } else if place == 1 {
            AccessPath::Ldap
        } else if place == 2 {
            AccessPath::Hris
        } else {
            AccessPath::Mozilliansorg
        }
    }
}

impl StaffPath {
    /// The place of the path among the attributes of the staff information, counted from zero.
    pub open spec fn index(self) -> nat {
        match self {
            StaffPath::Manager => 0,
            StaffPath::Director => 1,
            StaffPath::Staff => 2,
            StaffPath::Title => 3,
            StaffPath::Team => 4,
            StaffPath::CostCenter => 5,
            StaffPath::WorkerType => 6,
            StaffPath::WprDeskNumber => 7,
            StaffPath::OfficeLocation => 8,
        }
    }

    /// The path at the given place; the last one where the place is past the end.
    pub open spec fn at(place: nat) -> StaffPath {
        if place == 0 {
            StaffPath::Manager
        } else if place == 1 {
            StaffPath::Director
        } else if place == 2 {
            StaffPath::Staff
        } else if place == 3 {
            StaffPath::Title
        } else if place == 4 {
            StaffPath::Team
        } else if place == 5 {
            StaffPath::CostCenter
        } else if place == 6 {
            StaffPath::WorkerType
        } else if place == 7 {
            StaffPath::WprDeskNumber
        } else {
            StaffPath::OfficeLocation
        }
    }
}

impl AttributePath {
    /// The place of the path in the order of an update, counted from zero: the
    /// profile's own attributes first, then the identities, the access
    /// information and the staff information.
    pub open spec fn index(self) -> nat {
        match self {
            AttributePath::Uuid => 0,
            AttributePath::UserId => 1,
            AttributePath::PrimaryUsername => 2,
            AttributePath::LoginMethod => 3,
            AttributePath::Active => 4,
            AttributePath::LastModified => 5,
            AttributePath::Created => 6,
            AttributePath::Usernames => 7,
            AttributePath::Pronouns => 8,
            AttributePath::FirstName => 9,
            AttributePath::LastName => 10,
            AttributePath::AlternativeName => 11,
            AttributePath::PrimaryEmail => 12,
            AttributePath::SshPublicKeys => 13,
            AttributePath::PgpPublicKeys => 14,
            AttributePath::FunTitle => 15,
            AttributePath::Description => 16,
            AttributePath::Location => 17,
            AttributePath::Timezone => 18,
            AttributePath::Languages => 19,
            AttributePath::Tags => 20,
            AttributePath::Picture => 21,
            AttributePath::Uris => 22,
            AttributePath::PhoneNumbers => 23,
            AttributePath::Identities(path) => 24 + path.index(),
            AttributePath::AccessInformation(path) => 40 + path.index(),
            AttributePath::StaffInformation(path) => 44 + path.index(),
        }
    }

    /// The path at the given place; the last one where the place is past the end.
    pub open spec fn at(place: nat) -> AttributePath {
        if place == 0 {
            AttributePath::Uuid
        } else if place == 1 {
            AttributePath::UserId
        } else if place == 2 {
            AttributePath::PrimaryUsername
        } else if place == 3 {
            AttributePath::LoginMethod
        } else if place == 4 {
            AttributePath::Active
        } else if place == 5 {
            AttributePath::LastModified
        } else if place == 6 {
            AttributePath::Created
        } else if place == 7 {
            AttributePath::Usernames
        } else if place == 8 {
            AttributePath::Pronouns
        } else if place == 9 {
            AttributePath::FirstName
        } else if place == 10 {
            AttributePath::LastName
        } else if place == 11 {
            AttributePath::AlternativeName
        } else if place == 12 {
            AttributePath::PrimaryEmail
        } else if place == 13 {
            AttributePath::SshPublicKeys
        } else if place == 14 {
            AttributePath::PgpPublicKeys
        } else if place == 15 {
            AttributePath::FunTitle
        } else if place == 16 {
            AttributePath::Description
        } else if place == 17 {
            AttributePath::Location
        } else if place == 18 {
            AttributePath::Timezone
        } else if place == 19 {
            AttributePath::Languages
        } else if place == 20 {
            AttributePath::Tags
        } else if place == 21 {
            AttributePath::Picture
        } else if place == 22 {
            AttributePath::Uris
        } else if place == 23 {
            AttributePath::PhoneNumbers
        } else if place < 40 {
            AttributePath::Identities(IdentityPath::at((place - 24) as nat))
        } else if place < 44 {
            AttributePath::AccessInformation(AccessPath::at((place - 40) as nat))
        } else {
            AttributePath::StaffInformation(StaffPath::at((place - 44) as nat))
        }
    }

    /// Every path has a place below the number of attributes, and stands at its
    /// place.
    pub proof fn lemma_path_has_a_place(self)
        ensures
            self.index() < attribute_count(),
            AttributePath::at(self.index()) == self,
    {
    }

    /// Every place below the number of attributes is the place of the path that
    /// stands at it.
    pub proof fn lemma_place_has_a_path(place: nat)
        requires
            place < attribute_count(),
        ensures
            AttributePath::at(place).index() == place,
    {
    }
}

} // verus!
