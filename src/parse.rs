//! Filling a container from the attributes of its directory entry, and recording it in the
//! indices.

use vstd::prelude::*;
use crate::objects::{AceTemplate, Container, ContainerProperties};
use crate::sid::LinkError;
use crate::table::{StringTable, store};
use crate::text::{to_upper, upper_of};

verus! {

/// The attributes of a container's directory entry, once decoded.
#[derive(Debug, Clone, Default, PartialEq, Eq)]
pub struct ContainerAttributes {
    /// The entry's DN.
    pub dn: String,
    /// The `name` attribute.
    pub name: Option<String>,
    /// The `description` attribute.
    pub description: Option<String>,
    /// `whenCreated`, in seconds since the epoch.
    pub when_created: Option<i64>,
    /// `objectGUID`, in its text form.
    pub object_guid: Option<String>,
    /// The entries of `nTSecurityDescriptor`.
    pub aces: Option<Vec<AceTemplate>>,
    /// Whether the entry carries `IsDeleted`.
    pub is_deleted: bool,
}

/// What `Container::parse` leaves in the container, apart from the indices.
pub open spec fn parsed_container(old: Container, new: Container, result: ContainerAttributes, domain: Seq<char>, domain_sid: Seq<char>) -> bool {
    &&& new.properties.domain@ == upper_of(domain)
    &&& new.properties.distinguishedname@ == upper_of(result.dn@)
    &&& new.properties.domainsid@ == domain_sid
    &&& new.properties.name@ == match result.name {
        Some(n) => upper_of(n@ + "@"@ + domain),
        None => old.properties.name@,
    }
    &&& new.properties.description == match result.description {
        Some(d) => Some(d),
        None => old.properties.description,
    }
    &&& new.properties.whencreated == match result.when_created {
        Some(e) => if e > 0 { e } else { old.properties.whencreated },
        None => old.properties.whencreated,
    }
    &&& new.object_identifier@ == match result.object_guid {
        Some(g) => g@,
        None => old.object_identifier@,
    }
    &&& new.aces == match result.aces {
        Some(a) => a,
        None => old.aces,
    }
    &&& new.is_deleted == (old.is_deleted || result.is_deleted)
    &&& new.properties.isaclprotected == old.properties.isaclprotected
    &&& new.properties.highvalue == old.properties.highvalue
    &&& new.child_objects == old.child_objects
    &&& new.contained_by == old.contained_by
    &&& new.is_acl_protected == old.is_acl_protected
}

impl Container {
    /// Edit values: the ACL-protection flag, on the object and in its properties.
    pub fn set_is_acl_protected(&mut self, is_acl_protected: bool)
        ensures
            *final(self) == (Container {
                is_acl_protected,
                properties: ContainerProperties { isaclprotected: is_acl_protected, ..old(self).properties },
                ..*old(self)
            }),
    {
        self.is_acl_protected = is_acl_protected;
        self.properties.isaclprotected = is_acl_protected;
    }

    /// Function to parse and replace the values of a container from its entry's attributes,
    /// then record its DN and type in the indices.
    pub fn parse(
        &mut self,
        result: ContainerAttributes,
        domain: &str,
        dn_sid: &mut StringTable,
        sid_type: &mut StringTable,
        domain_sid: &str,
    ) -> (r: Result<(), LinkError>)
        requires
            old(dn_sid).wf(),
            old(sid_type).wf(),
        ensures
            r is Ok,
            parsed_container(*old(self), *final(self), result, domain@, domain_sid@),
            final(dn_sid)@ == store(
                old(dn_sid)@,
                final(self).properties.distinguishedname@,
                final(self).object_identifier@,
            ),
            final(sid_type)@ == store(old(sid_type)@, final(self).object_identifier@, "Container"@),
            final(dn_sid).wf(),
            final(sid_type).wf(),
    {
        self.properties.domain = to_upper(domain);
        self.properties.distinguishedname = to_upper(result.dn.as_str());
        self.properties.domainsid = domain_sid.to_owned();
        match result.name {
            Some(n) => {
                let mut email = n.clone();
                email.append("@");
                email.append(domain);
                self.properties.name = to_upper(email.as_str());
            },
            None => {},
        }
        match result.description {
            Some(d) => {
                self.properties.description = Some(d);
            },
            None => {},
        }
        match result.when_created {
            Some(e) => {
                if e > 0 {
                    self.properties.whencreated = e;
                }
            },
            None => {},
        }
        match result.object_guid {
            Some(g) => {
                self.object_identifier = g;
            },
            None => {},
        }
        match result.aces {
            Some(a) => {
                self.aces = a;
            },
            None => {},
        }
        if result.is_deleted {
            self.is_deleted = true;
        }
        dn_sid.insert(self.properties.distinguishedname.clone(), self.object_identifier.clone());
        sid_type.insert(self.object_identifier.clone(), "Container".to_owned());
        Ok(())
    }
}

} // verus!
