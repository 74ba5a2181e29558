//! The collected entities and the records that link them.

use vstd::prelude::*;

verus! {

/// An edge to another object: its identifier and its type label.
#[derive(Debug, Clone, Default, PartialEq, Eq)]
pub struct Member {
    pub object_identifier: String,
    pub object_type: String,
}

pub struct MemberView {
    pub object_identifier: Seq<char>,
    pub object_type: Seq<char>,
}

impl View for Member {
    type V = MemberView;

    open spec fn view(&self) -> MemberView {
        MemberView { object_identifier: self.object_identifier@, object_type: self.object_type@ }
    }
}

impl Member {
    pub fn new() -> (r: Self)
        ensures
            r.object_identifier@ == Seq::<char>::empty(),
            r.object_type@ == Seq::<char>::empty(),
    {
        Member { object_identifier: String::new(), object_type: String::new() }
    }
}

/// An access-control entry: who holds which right.
#[derive(Debug, Clone, Default, PartialEq, Eq)]
pub struct AceTemplate {
    pub principal_sid: String,
    pub principal_type: String,
    pub right_name: String,
    pub is_inherited: bool,
}

pub struct AceView {
    pub principal_sid: Seq<char>,
    pub principal_type: Seq<char>,
    pub right_name: Seq<char>,
    pub is_inherited: bool,
}

impl View for AceTemplate {
    type V = AceView;

    open spec fn view(&self) -> AceView {
        AceView {
            principal_sid: self.principal_sid@,
            principal_type: self.principal_type@,
            right_name: self.right_name@,
            is_inherited: self.is_inherited,
        }
    }
}

/// A group-policy link found in `gPLink`.
#[derive(Debug, Clone, Default, PartialEq, Eq)]
pub struct Link {
    pub is_enforced: bool,
    pub guid: String,
}

pub struct LinkView {
    pub is_enforced: bool,
    pub guid: Seq<char>,
}

impl View for Link {
    type V = LinkView;

    open spec fn view(&self) -> LinkView {
        LinkView { is_enforced: self.is_enforced, guid: self.guid@ }
    }
}

/// A service-principal-name target: a delegation edge to a computer.
#[derive(Debug, Clone, Default, PartialEq, Eq)]
pub struct SPNTarget {
    pub computer_sid: String,
    pub port: i32,
    pub service: String,
}

pub struct SpnView {
    pub computer_sid: Seq<char>,
    pub port: i32,
    pub service: Seq<char>,
}

impl View for SPNTarget {
    type V = SpnView;

    open spec fn view(&self) -> SpnView {
        SpnView { computer_sid: self.computer_sid@, port: self.port, service: self.service@ }
    }
}

/// Computers on which the policies linked to an OU or a domain apply.
#[derive(Debug, Clone, Default, PartialEq, Eq)]
pub struct GPOChange {
    pub affected_computers: Vec<Member>,
}

/// A trust relationship with another domain.
#[derive(Debug, Clone, Default, PartialEq, Eq)]
pub struct Trust {
    pub target_domain_sid: String,
    pub target_domain_name: String,
    pub trust_direction: String,
    pub trust_type: String,
    pub is_transitive: bool,
    pub sid_filtering_enabled: bool,
}

/// The kinds of collected objects.
#[derive(Debug, Clone, Copy, PartialEq, Eq)]
pub enum Type {
    User,
    Computer,
    Group,
    Ou,
    Domain,
    Gpo,
    Container,
    Unknown,
}

pub open spec fn members_view(s: Seq<Member>) -> Seq<MemberView> {
    s.map_values(|m: Member| m@)
}

pub open spec fn aces_view(s: Seq<AceTemplate>) -> Seq<AceView> {
    s.map_values(|a: AceTemplate| a@)
}

pub open spec fn links_view(s: Seq<Link>) -> Seq<LinkView> {
    s.map_values(|l: Link| l@)
}

pub open spec fn spns_view(s: Seq<SPNTarget>) -> Seq<SpnView> {
    s.map_values(|t: SPNTarget| t@)
}

pub open spec fn member_opt_view(m: Option<Member>) -> Option<MemberView> {
    match m {
        Some(m) => Some(m@),
        None => None,
    }
}

/// Common properties of users, groups, OUs and domains.
#[derive(Debug, Clone, Default, PartialEq, Eq)]
pub struct Properties {
    pub domain: String,
    pub name: String,
    pub distinguishedname: String,
    pub domainsid: String,
    pub highvalue: bool,
    pub description: Option<String>,
}

impl Properties {
    pub fn new() -> (r: Self)
        ensures
            r.domain@ == Seq::<char>::empty(),
            r.name@ == Seq::<char>::empty(),
            r.distinguishedname@ == Seq::<char>::empty(),
            r.domainsid@ == Seq::<char>::empty(),
            !r.highvalue,
            r.description is None,
    {
        Properties {
            domain: String::new(),
            name: String::new(),
            distinguishedname: String::new(),
            domainsid: String::new(),
            highvalue: false,
            description: None,
        }
    }
}

/// Properties of a computer.
#[derive(Debug, Clone, Default, PartialEq, Eq)]
pub struct ComputerProperties {
    pub domain: String,
    pub name: String,
    pub distinguishedname: String,
    pub domainsid: String,
    pub highvalue: bool,
    pub is_dc: bool,
}

impl ComputerProperties {
    pub fn new() -> (r: Self)
        ensures
            r.domain@ == Seq::<char>::empty(),
            r.name@ == Seq::<char>::empty(),
            r.distinguishedname@ == Seq::<char>::empty(),
            r.domainsid@ == Seq::<char>::empty(),
            !r.highvalue,
            !r.is_dc,
    {
        ComputerProperties {
            domain: String::new(),
            name: String::new(),
            distinguishedname: String::new(),
            domainsid: String::new(),
            highvalue: false,
            is_dc: false,
        }
    }
}

/// Properties of a container.
#[derive(Debug, Clone, Default, PartialEq, Eq)]
pub struct ContainerProperties {
    pub domain: String,
    pub name: String,
    pub distinguishedname: String,
    pub domainsid: String,
    pub isaclprotected: bool,
    pub highvalue: bool,
    pub description: Option<String>,
    pub whencreated: i64,
}

impl ContainerProperties {
    pub fn new() -> (r: Self)
        ensures
            r.domain@ == Seq::<char>::empty(),
            r.name@ == Seq::<char>::empty(),
            r.distinguishedname@ == Seq::<char>::empty(),
            r.domainsid@ == Seq::<char>::empty(),
            !r.isaclprotected,
            !r.highvalue,
            r.description is None,
            r.whencreated == 0,
    {
        ContainerProperties {
            domain: String::new(),
            name: String::new(),
            distinguishedname: String::new(),
            domainsid: String::new(),
            isaclprotected: false,
            highvalue: false,
            description: None,
            whencreated: 0,
        }
    }
}

/// What the link-resolution passes read and write on every kind of object. A kind without
/// one of the edge lists reads it as empty and only ever has it set to an empty list.
pub trait LdapObject: Sized {
    spec fn spec_object_identifier(&self) -> Seq<char>;

    spec fn spec_aces(&self) -> Seq<AceView>;

    spec fn spec_contained_by(&self) -> Option<MemberView>;

    /// The fields that no setter of this trait changes.
    type Fixed;

    spec fn spec_fixed(&self) -> Self::Fixed;

    spec fn spec_child_objects(&self) -> Seq<MemberView>;

    spec fn spec_links(&self) -> Seq<LinkView>;

    spec fn spec_spntargets(&self) -> Seq<SpnView>;

    spec fn spec_allowed_to_delegate(&self) -> Seq<MemberView>;

    spec fn has_child_objects() -> bool;

    spec fn has_links() -> bool;

    spec fn has_spntargets() -> bool;

    spec fn has_allowed_to_delegate() -> bool;

    fn get_object_identifier(&self) -> (r: &String)
        ensures
            r@ == self.spec_object_identifier(),
    ;

    fn get_aces(&self) -> (r: &[AceTemplate])
        ensures
            aces_view(r@) == self.spec_aces(),
    ;

    fn set_aces(&mut self, aces: Vec<AceTemplate>)
        ensures
            final(self).spec_aces() == aces_view(aces@),
            final(self).spec_fixed() == old(self).spec_fixed(),
            final(self).spec_object_identifier() == old(self).spec_object_identifier(),
            final(self).spec_contained_by() == old(self).spec_contained_by(),
            final(self).spec_child_objects() == old(self).spec_child_objects(),
            final(self).spec_links() == old(self).spec_links(),
            final(self).spec_spntargets() == old(self).spec_spntargets(),
            final(self).spec_allowed_to_delegate() == old(self).spec_allowed_to_delegate(),
    ;

    fn set_contained_by(&mut self, contained_by: Option<Member>)
        ensures
            final(self).spec_contained_by() == member_opt_view(contained_by),
            final(self).spec_fixed() == old(self).spec_fixed(),
            final(self).spec_object_identifier() == old(self).spec_object_identifier(),
            final(self).spec_aces() == old(self).spec_aces(),
            final(self).spec_child_objects() == old(self).spec_child_objects(),
            final(self).spec_links() == old(self).spec_links(),
            final(self).spec_spntargets() == old(self).spec_spntargets(),
            final(self).spec_allowed_to_delegate() == old(self).spec_allowed_to_delegate(),
    ;

    fn get_child_objects(&self) -> (r: &[Member])
        ensures
            members_view(r@) == self.spec_child_objects(),
            !Self::has_child_objects() ==> r@.len() == 0,
    ;

    fn set_child_objects(&mut self, child_objects: Vec<Member>)
        requires
            Self::has_child_objects() || child_objects@.len() == 0,
        ensures
            final(self).spec_child_objects() == members_view(child_objects@),
            final(self).spec_fixed() == old(self).spec_fixed(),
            final(self).spec_object_identifier() == old(self).spec_object_identifier(),
            final(self).spec_aces() == old(self).spec_aces(),
            final(self).spec_contained_by() == old(self).spec_contained_by(),
            final(self).spec_links() == old(self).spec_links(),
            final(self).spec_spntargets() == old(self).spec_spntargets(),
            final(self).spec_allowed_to_delegate() == old(self).spec_allowed_to_delegate(),
    ;

    fn get_links(&self) -> (r: &[Link])
        ensures
            links_view(r@) == self.spec_links(),
            !Self::has_links() ==> r@.len() == 0,
    ;

    fn set_links(&mut self, links: Vec<Link>)
        requires
            Self::has_links() || links@.len() == 0,
        ensures
            final(self).spec_links() == links_view(links@),
            final(self).spec_fixed() == old(self).spec_fixed(),
            final(self).spec_object_identifier() == old(self).spec_object_identifier(),
            final(self).spec_aces() == old(self).spec_aces(),
            final(self).spec_contained_by() == old(self).spec_contained_by(),
            final(self).spec_child_objects() == old(self).spec_child_objects(),
            final(self).spec_spntargets() == old(self).spec_spntargets(),
            final(self).spec_allowed_to_delegate() == old(self).spec_allowed_to_delegate(),
    ;

    fn get_spntargets(&self) -> (r: &[SPNTarget])
        ensures
            spns_view(r@) == self.spec_spntargets(),
            !Self::has_spntargets() ==> r@.len() == 0,
    ;

    fn set_spntargets(&mut self, spntargets: Vec<SPNTarget>)
        requires
            Self::has_spntargets() || spntargets@.len() == 0,
        ensures
            final(self).spec_spntargets() == spns_view(spntargets@),
            final(self).spec_fixed() == old(self).spec_fixed(),
            final(self).spec_object_identifier() == old(self).spec_object_identifier(),
            final(self).spec_aces() == old(self).spec_aces(),
            final(self).spec_contained_by() == old(self).spec_contained_by(),
            final(self).spec_child_objects() == old(self).spec_child_objects(),
            final(self).spec_links() == old(self).spec_links(),
            final(self).spec_allowed_to_delegate() == old(self).spec_allowed_to_delegate(),
    ;

    fn get_allowed_to_delegate(&self) -> (r: &[Member])
        ensures
            members_view(r@) == self.spec_allowed_to_delegate(),
            !Self::has_allowed_to_delegate() ==> r@.len() == 0,
    ;

    fn set_allowed_to_delegate(&mut self, allowed_to_delegate: Vec<Member>)
        requires
            Self::has_allowed_to_delegate() || allowed_to_delegate@.len() == 0,
        ensures
            final(self).spec_allowed_to_delegate() == members_view(allowed_to_delegate@),
            final(self).spec_fixed() == old(self).spec_fixed(),
            final(self).spec_object_identifier() == old(self).spec_object_identifier(),
            final(self).spec_aces() == old(self).spec_aces(),
            final(self).spec_contained_by() == old(self).spec_contained_by(),
            final(self).spec_child_objects() == old(self).spec_child_objects(),
            final(self).spec_links() == old(self).spec_links(),
            final(self).spec_spntargets() == old(self).spec_spntargets(),
    ;

}

/// A user account.
#[derive(Debug, Clone, Default, PartialEq, Eq)]
pub struct User {
    pub properties: Properties,
    pub object_identifier: String,
    pub aces: Vec<AceTemplate>,
    pub contained_by: Option<Member>,
    pub is_deleted: bool,
    pub is_acl_protected: bool,
    pub spn_targets: Vec<SPNTarget>,
    pub allowed_to_delegate: Vec<Member>,
}

impl User {
    pub fn new() -> (r: Self)
        ensures
            r.object_identifier@ == Seq::<char>::empty(),
            r.aces@.len() == 0,
            r.contained_by is None,
            !r.is_deleted,
            !r.is_acl_protected,
            r.spn_targets@.len() == 0,
            r.allowed_to_delegate@.len() == 0,
            r.properties.domain@ == Seq::<char>::empty(),
            r.properties.name@ == Seq::<char>::empty(),
            r.properties.distinguishedname@ == Seq::<char>::empty(),
            r.properties.domainsid@ == Seq::<char>::empty(),
            !r.properties.highvalue,
            r.properties.description is None,
    {
        User {
            properties: Properties::new(),
            object_identifier: String::new(),
            aces: Vec::new(),
            contained_by: None,
            is_deleted: false,
            is_acl_protected: false,
            spn_targets: Vec::new(),
            allowed_to_delegate: Vec::new(),
        }
    }
}

impl LdapObject for User {
    type Fixed = (Properties, bool, bool);

    open spec fn spec_fixed(&self) -> Self::Fixed {
        (self.properties, self.is_deleted, self.is_acl_protected)
    }

    open spec fn spec_object_identifier(&self) -> Seq<char> {
        self.object_identifier@
    }

    open spec fn spec_aces(&self) -> Seq<AceView> {
        aces_view(self.aces@)
    }

    open spec fn spec_contained_by(&self) -> Option<MemberView> {
        member_opt_view(self.contained_by)
    }

    open spec fn spec_child_objects(&self) -> Seq<MemberView> {
        Seq::empty()
    }

    open spec fn spec_links(&self) -> Seq<LinkView> {
        Seq::empty()
    }

    open spec fn spec_spntargets(&self) -> Seq<SpnView> {
        spns_view(self.spn_targets@)
    }

    open spec fn spec_allowed_to_delegate(&self) -> Seq<MemberView> {
        members_view(self.allowed_to_delegate@)
    }

    open spec fn has_child_objects() -> bool {
        false
    }

    open spec fn has_links() -> bool {
        false
    }

    open spec fn has_spntargets() -> bool {
        true
    }

    open spec fn has_allowed_to_delegate() -> bool {
        true
    }

    fn get_object_identifier(&self) -> (r: &String) {
        &self.object_identifier
    }

    fn get_aces(&self) -> (r: &[AceTemplate]) {
        self.aces.as_slice()
    }

    fn set_aces(&mut self, aces: Vec<AceTemplate>) {
        self.aces = aces;
    }

    fn set_contained_by(&mut self, contained_by: Option<Member>) {
        self.contained_by = contained_by;
    }

    fn get_child_objects(&self) -> (r: &[Member]) {
        &[]
    }

    fn set_child_objects(&mut self, _child_objects: Vec<Member>) {
    }

    fn get_links(&self) -> (r: &[Link]) {
        &[]
    }

    fn set_links(&mut self, _links: Vec<Link>) {
    }

    fn get_spntargets(&self) -> (r: &[SPNTarget]) {
        self.spn_targets.as_slice()
    }

    fn set_spntargets(&mut self, spntargets: Vec<SPNTarget>) {
        self.spn_targets = spntargets;
    }

    fn get_allowed_to_delegate(&self) -> (r: &[Member]) {
        self.allowed_to_delegate.as_slice()
    }

    fn set_allowed_to_delegate(&mut self, allowed_to_delegate: Vec<Member>) {
        self.allowed_to_delegate = allowed_to_delegate;
    }

}

/// A computer account.
#[derive(Debug, Clone, Default, PartialEq, Eq)]
pub struct Computer {
    pub properties: ComputerProperties,
    pub object_identifier: String,
    pub aces: Vec<AceTemplate>,
    pub contained_by: Option<Member>,
    pub is_deleted: bool,
    pub is_acl_protected: bool,
    pub allowed_to_delegate: Vec<Member>,
    pub allowed_to_act: Vec<Member>,
}

impl Computer {
    pub fn new() -> (r: Self)
        ensures
            r.object_identifier@ == Seq::<char>::empty(),
            r.aces@.len() == 0,
            r.contained_by is None,
            !r.is_deleted,
            !r.is_acl_protected,
            r.allowed_to_delegate@.len() == 0,
            r.allowed_to_act@.len() == 0,
            r.properties.domain@ == Seq::<char>::empty(),
            r.properties.name@ == Seq::<char>::empty(),
            r.properties.distinguishedname@ == Seq::<char>::empty(),
            r.properties.domainsid@ == Seq::<char>::empty(),
            !r.properties.highvalue,
            !r.properties.is_dc,
    {
        Computer {
            properties: ComputerProperties::new(),
            object_identifier: String::new(),
            aces: Vec::new(),
            contained_by: None,
            is_deleted: false,
            is_acl_protected: false,
            allowed_to_delegate: Vec::new(),
            allowed_to_act: Vec::new(),
        }
    }
}

impl LdapObject for Computer {
    type Fixed = (ComputerProperties, bool, bool, Vec<Member>);

    open spec fn spec_fixed(&self) -> Self::Fixed {
        (self.properties, self.is_deleted, self.is_acl_protected, self.allowed_to_act)
    }

    open spec fn spec_object_identifier(&self) -> Seq<char> {
        self.object_identifier@
    }

    open spec fn spec_aces(&self) -> Seq<AceView> {
        aces_view(self.aces@)
    }

    open spec fn spec_contained_by(&self) -> Option<MemberView> {
        member_opt_view(self.contained_by)
    }

    open spec fn spec_child_objects(&self) -> Seq<MemberView> {
        Seq::empty()
    }

    open spec fn spec_links(&self) -> Seq<LinkView> {
        Seq::empty()
    }

    open spec fn spec_spntargets(&self) -> Seq<SpnView> {
        Seq::empty()
    }

    open spec fn spec_allowed_to_delegate(&self) -> Seq<MemberView> {
        members_view(self.allowed_to_delegate@)
    }

    open spec fn has_child_objects() -> bool {
        false
    }

    open spec fn has_links() -> bool {
        false
    }

    open spec fn has_spntargets() -> bool {
        false
    }

    open spec fn has_allowed_to_delegate() -> bool {
        true
    }

    fn get_object_identifier(&self) -> (r: &String) {
        &self.object_identifier
    }

    fn get_aces(&self) -> (r: &[AceTemplate]) {
        self.aces.as_slice()
    }

    fn set_aces(&mut self, aces: Vec<AceTemplate>) {
        self.aces = aces;
    }

    fn set_contained_by(&mut self, contained_by: Option<Member>) {
        self.contained_by = contained_by;
    }

    fn get_child_objects(&self) -> (r: &[Member]) {
        &[]
    }

    fn set_child_objects(&mut self, _child_objects: Vec<Member>) {
    }

    fn get_links(&self) -> (r: &[Link]) {
        &[]
    }

    fn set_links(&mut self, _links: Vec<Link>) {
    }

    fn get_spntargets(&self) -> (r: &[SPNTarget]) {
        &[]
    }

    fn set_spntargets(&mut self, _spntargets: Vec<SPNTarget>) {
    }

    fn get_allowed_to_delegate(&self) -> (r: &[Member]) {
        self.allowed_to_delegate.as_slice()
    }

    fn set_allowed_to_delegate(&mut self, allowed_to_delegate: Vec<Member>) {
        self.allowed_to_delegate = allowed_to_delegate;
    }

}

/// A security group.
#[derive(Debug, Clone, Default, PartialEq, Eq)]
pub struct Group {
    pub properties: Properties,
    pub object_identifier: String,
    pub aces: Vec<AceTemplate>,
    pub contained_by: Option<Member>,
    pub is_deleted: bool,
    pub is_acl_protected: bool,
    pub members: Vec<Member>,
}

impl Group {
    pub fn new() -> (r: Self)
        ensures
            r.object_identifier@ == Seq::<char>::empty(),
            r.aces@.len() == 0,
            r.contained_by is None,
            !r.is_deleted,
            !r.is_acl_protected,
            r.members@.len() == 0,
            r.properties.domain@ == Seq::<char>::empty(),
            r.properties.name@ == Seq::<char>::empty(),
            r.properties.distinguishedname@ == Seq::<char>::empty(),
            r.properties.domainsid@ == Seq::<char>::empty(),
            !r.properties.highvalue,
            r.properties.description is None,
    {
        Group {
            properties: Properties::new(),
            object_identifier: String::new(),
            aces: Vec::new(),
            contained_by: None,
            is_deleted: false,
            is_acl_protected: false,
            members: Vec::new(),
        }
    }
}

impl LdapObject for Group {
    type Fixed = (Properties, bool, bool, Vec<Member>);

    open spec fn spec_fixed(&self) -> Self::Fixed {
        (self.properties, self.is_deleted, self.is_acl_protected, self.members)
    }

    open spec fn spec_object_identifier(&self) -> Seq<char> {
        self.object_identifier@
    }

    open spec fn spec_aces(&self) -> Seq<AceView> {
        aces_view(self.aces@)
    }

    open spec fn spec_contained_by(&self) -> Option<MemberView> {
        member_opt_view(self.contained_by)
    }

    open spec fn spec_child_objects(&self) -> Seq<MemberView> {
        Seq::empty()
    }

    open spec fn spec_links(&self) -> Seq<LinkView> {
        Seq::empty()
    }

    open spec fn spec_spntargets(&self) -> Seq<SpnView> {
        Seq::empty()
    }

    open spec fn spec_allowed_to_delegate(&self) -> Seq<MemberView> {
        Seq::empty()
    }

    open spec fn has_child_objects() -> bool {
        false
    }

    open spec fn has_links() -> bool {
        false
    }

    open spec fn has_spntargets() -> bool {
        false
    }

    open spec fn has_allowed_to_delegate() -> bool {
        false
    }

    fn get_object_identifier(&self) -> (r: &String) {
        &self.object_identifier
    }

    fn get_aces(&self) -> (r: &[AceTemplate]) {
        self.aces.as_slice()
    }

    fn set_aces(&mut self, aces: Vec<AceTemplate>) {
        self.aces = aces;
    }

    fn set_contained_by(&mut self, contained_by: Option<Member>) {
        self.contained_by = contained_by;
    }

    fn get_child_objects(&self) -> (r: &[Member]) {
        &[]
    }

    fn set_child_objects(&mut self, _child_objects: Vec<Member>) {
    }

    fn get_links(&self) -> (r: &[Link]) {
        &[]
    }

    fn set_links(&mut self, _links: Vec<Link>) {
    }

    fn get_spntargets(&self) -> (r: &[SPNTarget]) {
        &[]
    }

    fn set_spntargets(&mut self, _spntargets: Vec<SPNTarget>) {
    }

    fn get_allowed_to_delegate(&self) -> (r: &[Member]) {
        &[]
    }

    fn set_allowed_to_delegate(&mut self, _allowed_to_delegate: Vec<Member>) {
    }

}

/// An organizational unit.
#[derive(Debug, Clone, Default, PartialEq, Eq)]
pub struct Ou {
    pub properties: Properties,
    pub object_identifier: String,
    pub aces: Vec<AceTemplate>,
    pub contained_by: Option<Member>,
    pub is_deleted: bool,
    pub is_acl_protected: bool,
    pub child_objects: Vec<Member>,
    pub links: Vec<Link>,
    pub gpo_changes: GPOChange,
}

impl Ou {
    pub fn new() -> (r: Self)
        ensures
            r.object_identifier@ == Seq::<char>::empty(),
            r.aces@.len() == 0,
            r.contained_by is None,
            !r.is_deleted,
            !r.is_acl_protected,
            r.child_objects@.len() == 0,
            r.links@.len() == 0,
            r.gpo_changes.affected_computers@.len() == 0,
            r.properties.domain@ == Seq::<char>::empty(),
            r.properties.name@ == Seq::<char>::empty(),
            r.properties.distinguishedname@ == Seq::<char>::empty(),
            r.properties.domainsid@ == Seq::<char>::empty(),
            !r.properties.highvalue,
            r.properties.description is None,
    {
        Ou {
            properties: Properties::new(),
            object_identifier: String::new(),
            aces: Vec::new(),
            contained_by: None,
            is_deleted: false,
            is_acl_protected: false,
            child_objects: Vec::new(),
            links: Vec::new(),
            gpo_changes: GPOChange { affected_computers: Vec::new() },
        }
    }
}

impl LdapObject for Ou {
    type Fixed = (Properties, bool, bool, GPOChange);

    open spec fn spec_fixed(&self) -> Self::Fixed {
        (self.properties, self.is_deleted, self.is_acl_protected, self.gpo_changes)
    }

    open spec fn spec_object_identifier(&self) -> Seq<char> {
        self.object_identifier@
    }

    open spec fn spec_aces(&self) -> Seq<AceView> {
        aces_view(self.aces@)
    }

    open spec fn spec_contained_by(&self) -> Option<MemberView> {
        member_opt_view(self.contained_by)
    }

    open spec fn spec_child_objects(&self) -> Seq<MemberView> {
        members_view(self.child_objects@)
    }

    open spec fn spec_links(&self) -> Seq<LinkView> {
        links_view(self.links@)
    }

    open spec fn spec_spntargets(&self) -> Seq<SpnView> {
        Seq::empty()
    }

    open spec fn spec_allowed_to_delegate(&self) -> Seq<MemberView> {
        Seq::empty()
    }

    open spec fn has_child_objects() -> bool {
        true
    }

    open spec fn has_links() -> bool {
        true
    }

    open spec fn has_spntargets() -> bool {
        false
    }

    open spec fn has_allowed_to_delegate() -> bool {
        false
    }

    fn get_object_identifier(&self) -> (r: &String) {
        &self.object_identifier
    }

    fn get_aces(&self) -> (r: &[AceTemplate]) {
        self.aces.as_slice()
    }

    fn set_aces(&mut self, aces: Vec<AceTemplate>) {
        self.aces = aces;
    }

    fn set_contained_by(&mut self, contained_by: Option<Member>) {
        self.contained_by = contained_by;
    }

    fn get_child_objects(&self) -> (r: &[Member]) {
        self.child_objects.as_slice()
    }

    fn set_child_objects(&mut self, child_objects: Vec<Member>) {
        self.child_objects = child_objects;
    }

    fn get_links(&self) -> (r: &[Link]) {
        self.links.as_slice()
    }

    fn set_links(&mut self, links: Vec<Link>) {
        self.links = links;
    }

    fn get_spntargets(&self) -> (r: &[SPNTarget]) {
        &[]
    }

    fn set_spntargets(&mut self, _spntargets: Vec<SPNTarget>) {
    }

    fn get_allowed_to_delegate(&self) -> (r: &[Member]) {
        &[]
    }

    fn set_allowed_to_delegate(&mut self, _allowed_to_delegate: Vec<Member>) {
    }

}

/// A domain: the root of a DN subtree.
#[derive(Debug, Clone, Default, PartialEq, Eq)]
pub struct Domain {
    pub properties: Properties,
    pub object_identifier: String,
    pub aces: Vec<AceTemplate>,
    pub contained_by: Option<Member>,
    pub is_deleted: bool,
    pub is_acl_protected: bool,
    pub child_objects: Vec<Member>,
    pub links: Vec<Link>,
    pub gpo_changes: GPOChange,
    pub trusts: Vec<Trust>,
}

impl Domain {
    pub fn new() -> (r: Self)
        ensures
            r.object_identifier@ == Seq::<char>::empty(),
            r.aces@.len() == 0,
            r.contained_by is None,
            !r.is_deleted,
            !r.is_acl_protected,
            r.child_objects@.len() == 0,
            r.links@.len() == 0,
            r.gpo_changes.affected_computers@.len() == 0,
            r.trusts@.len() == 0,
            r.properties.domain@ == Seq::<char>::empty(),
            r.properties.name@ == Seq::<char>::empty(),
            r.properties.distinguishedname@ == Seq::<char>::empty(),
            r.properties.domainsid@ == Seq::<char>::empty(),
            !r.properties.highvalue,
            r.properties.description is None,
    {
        Domain {
            properties: Properties::new(),
            object_identifier: String::new(),
            aces: Vec::new(),
            contained_by: None,
            is_deleted: false,
            is_acl_protected: false,
            child_objects: Vec::new(),
            links: Vec::new(),
            gpo_changes: GPOChange { affected_computers: Vec::new() },
            trusts: Vec::new(),
        }
    }
}

impl LdapObject for Domain {
    type Fixed = (Properties, bool, bool, GPOChange, Vec<Trust>);

    open spec fn spec_fixed(&self) -> Self::Fixed {
        (self.properties, self.is_deleted, self.is_acl_protected, self.gpo_changes, self.trusts)
    }

    open spec fn spec_object_identifier(&self) -> Seq<char> {
        self.object_identifier@
    }

    open spec fn spec_aces(&self) -> Seq<AceView> {
        aces_view(self.aces@)
    }

    open spec fn spec_contained_by(&self) -> Option<MemberView> {
        member_opt_view(self.contained_by)
    }

    open spec fn spec_child_objects(&self) -> Seq<MemberView> {
        members_view(self.child_objects@)
    }

    open spec fn spec_links(&self) -> Seq<LinkView> {
        links_view(self.links@)
    }

    open spec fn spec_spntargets(&self) -> Seq<SpnView> {
        Seq::empty()
    }

    open spec fn spec_allowed_to_delegate(&self) -> Seq<MemberView> {
        Seq::empty()
    }

    open spec fn has_child_objects() -> bool {
        true
    }

    open spec fn has_links() -> bool {
        true
    }

    open spec fn has_spntargets() -> bool {
        false
    }

    open spec fn has_allowed_to_delegate() -> bool {
        false
    }

    fn get_object_identifier(&self) -> (r: &String) {
        &self.object_identifier
    }

    fn get_aces(&self) -> (r: &[AceTemplate]) {
        self.aces.as_slice()
    }

    fn set_aces(&mut self, aces: Vec<AceTemplate>) {
        self.aces = aces;
    }

    fn set_contained_by(&mut self, contained_by: Option<Member>) {
        self.contained_by = contained_by;
    }

    fn get_child_objects(&self) -> (r: &[Member]) {
        self.child_objects.as_slice()
    }

    fn set_child_objects(&mut self, child_objects: Vec<Member>) {
        self.child_objects = child_objects;
    }

    fn get_links(&self) -> (r: &[Link]) {
        self.links.as_slice()
    }

    fn set_links(&mut self, links: Vec<Link>) {
        self.links = links;
    }

    fn get_spntargets(&self) -> (r: &[SPNTarget]) {
        &[]
    }

    fn set_spntargets(&mut self, _spntargets: Vec<SPNTarget>) {
    }

    fn get_allowed_to_delegate(&self) -> (r: &[Member]) {
        &[]
    }

    fn set_allowed_to_delegate(&mut self, _allowed_to_delegate: Vec<Member>) {
    }

}

/// Container structure: a generic directory container such as `CN=USERS`.
#[derive(Debug, Clone, Default, PartialEq, Eq)]
pub struct Container {
    pub properties: ContainerProperties,
    pub object_identifier: String,
    pub aces: Vec<AceTemplate>,
    pub contained_by: Option<Member>,
    pub is_deleted: bool,
    pub is_acl_protected: bool,
    pub child_objects: Vec<Member>,
}

impl Container {
    pub fn new() -> (r: Self)
        ensures
            r.object_identifier@ == Seq::<char>::empty(),
            r.aces@.len() == 0,
            r.contained_by is None,
            !r.is_deleted,
            !r.is_acl_protected,
            r.child_objects@.len() == 0,
            r.properties.domain@ == Seq::<char>::empty(),
            r.properties.name@ == Seq::<char>::empty(),
            r.properties.distinguishedname@ == Seq::<char>::empty(),
            r.properties.domainsid@ == Seq::<char>::empty(),
            !r.properties.highvalue,
            r.properties.description is None,
            !r.properties.isaclprotected,
            r.properties.whencreated == 0,
    {
        Container {
            properties: ContainerProperties::new(),
            object_identifier: String::new(),
            aces: Vec::new(),
            contained_by: None,
            is_deleted: false,
            is_acl_protected: false,
            child_objects: Vec::new(),
        }
    }
}

impl LdapObject for Container {
    type Fixed = (ContainerProperties, bool, bool);

    open spec fn spec_fixed(&self) -> Self::Fixed {
        (self.properties, self.is_deleted, self.is_acl_protected)
    }

    open spec fn spec_object_identifier(&self) -> Seq<char> {
        self.object_identifier@
    }

    open spec fn spec_aces(&self) -> Seq<AceView> {
        aces_view(self.aces@)
    }

    open spec fn spec_contained_by(&self) -> Option<MemberView> {
        member_opt_view(self.contained_by)
    }

    open spec fn spec_child_objects(&self) -> Seq<MemberView> {
        members_view(self.child_objects@)
    }

    open spec fn spec_links(&self) -> Seq<LinkView> {
        Seq::empty()
    }

    open spec fn spec_spntargets(&self) -> Seq<SpnView> {
        Seq::empty()
    }

    open spec fn spec_allowed_to_delegate(&self) -> Seq<MemberView> {
        Seq::empty()
    }

    open spec fn has_child_objects() -> bool {
        true
    }

    open spec fn has_links() -> bool {
        false
    }

    open spec fn has_spntargets() -> bool {
        false
    }

    open spec fn has_allowed_to_delegate() -> bool {
        false
    }

    fn get_object_identifier(&self) -> (r: &String) {
        &self.object_identifier
    }

    fn get_aces(&self) -> (r: &[AceTemplate]) {
        self.aces.as_slice()
    }

    fn set_aces(&mut self, aces: Vec<AceTemplate>) {
        self.aces = aces;
    }

    fn set_contained_by(&mut self, contained_by: Option<Member>) {
        self.contained_by = contained_by;
    }

    fn get_child_objects(&self) -> (r: &[Member]) {
        self.child_objects.as_slice()
    }

    fn set_child_objects(&mut self, child_objects: Vec<Member>) {
        self.child_objects = child_objects;
    }

    fn get_links(&self) -> (r: &[Link]) {
        &[]
    }

    fn set_links(&mut self, _links: Vec<Link>) {
    }

    fn get_spntargets(&self) -> (r: &[SPNTarget]) {
        &[]
    }

    fn set_spntargets(&mut self, _spntargets: Vec<SPNTarget>) {
    }

    fn get_allowed_to_delegate(&self) -> (r: &[Member]) {
        &[]
    }

    fn set_allowed_to_delegate(&mut self, _allowed_to_delegate: Vec<Member>) {
    }

}

} // verus!
