use rusthound::builtins::{add_default_groups, add_default_users};
use rusthound::checker::{
    add_type_for_ace, add_type_for_allowtedtoact, replace_fqdn_by_sid, replace_guid_gplink,
    replace_sid_members,
};
use rusthound::containment::{
    add_affected_computers, add_affected_computers_for_ou, add_childobjects_members,
    add_childobjects_members_for_ou, add_contained_by_for, direct_child,
};
use rusthound::objects::{
    AceTemplate, Computer, Container, Domain, Group, Link, Member, Ou, SPNTarget, Trust, Type, User,
};
use rusthound::parse::ContainerAttributes;
use rusthound::sid::add_trustdomain;
use rusthound::table::StringTable;

fn table(pairs: &[(&str, &str)]) -> StringTable {
    let mut t = StringTable::new();
    for (k, v) in pairs {
        t.insert(k.to_string(), v.to_string());
    }
    t
}

fn member(id: &str, kind: &str) -> Member {
    Member { object_identifier: id.to_string(), object_type: kind.to_string() }
}

fn ids(ms: &[Member]) -> Vec<String> {
    ms.iter().map(|m| m.object_identifier.clone()).collect()
}

fn computer(id: &str, is_dc: bool) -> Computer {
    let mut c = Computer::new();
    c.object_identifier = id.to_string();
    c.properties.is_dc = is_dc;
    c
}

#[test]
fn well_known_group_synthesis() {
    let mut groups: Vec<Group> = Vec::new();
    let computers = vec![computer("S-1-5-21-111-222-333-1000", true), computer("S-1-5-21-111-222-333-1200", false)];
    add_default_groups(&mut groups, &computers, "essos.local".to_string()).unwrap();
    assert_eq!(groups.len(), 12);
    let edc = &groups[0];
    assert_eq!(edc.object_identifier, "ESSOS.LOCAL-S-1-5-9");
    assert_eq!(edc.properties.name, "ENTERPRISE DOMAIN CONTROLLERS@ESSOS.LOCAL");
    assert_eq!(edc.members, vec![member("S-1-5-21-111-222-333-1000", "Computer")]);
    let everyone = groups.iter().find(|g| g.object_identifier == "ESSOS.LOCAL-S-1-1-0").unwrap();
    assert_eq!(everyone.properties.name, "EVERYONE@ESSOS.LOCAL");
    assert_eq!(
        everyone.members,
        vec![member("S-1-5-21-111-222-333-515", "Group"), member("S-1-5-21-111-222-333-513", "Group")]
    );
    let auth = groups.iter().find(|g| g.object_identifier == "ESSOS.LOCAL-S-1-5-11").unwrap();
    assert_eq!(auth.members, everyone.members);
    let admins = groups.iter().find(|g| g.object_identifier == "ESSOS.LOCAL-S-1-5-32-544").unwrap();
    assert!(admins.properties.highvalue);
    assert!(admins.members.is_empty());
    let interactive = groups.iter().find(|g| g.object_identifier == "ESSOS.LOCAL-S-1-5-4").unwrap();
    assert!(!interactive.properties.highvalue);
}

#[test]
fn well_known_groups_without_dc() {
    let mut groups: Vec<Group> = Vec::new();
    add_default_groups(&mut groups, &Vec::new(), "ESSOS.LOCAL".to_string()).unwrap();
    assert!(groups[0].members.is_empty());
    assert_eq!(groups[3].members, vec![member("-515", "Group"), member("-513", "Group")]);
}

#[test]
fn nt_authority_user() {
    let mut first = User::new();
    first.properties.domainsid = "S-1-5-21-1-2-3".to_string();
    let mut users = vec![first];
    add_default_users(&mut users, "essos.local".to_string()).unwrap();
    assert_eq!(users.len(), 2);
    assert_eq!(users[1].object_identifier, "ESSOS.LOCAL-S-1-5-20");
    assert_eq!(users[1].properties.name, "NT AUTHORITY@ESSOS.LOCAL");
    assert_eq!(users[1].properties.domainsid, "S-1-5-21-1-2-3");
}

#[test]
fn member_dn_to_sid() {
    let mut g = Group::new();
    g.members = vec![member("CN=ALICE,CN=USERS,DC=ESSOS,DC=LOCAL", "")];
    let mut groups = vec![g];
    let dn_sid = table(&[("CN=ALICE,CN=USERS,DC=ESSOS,DC=LOCAL", "S-1-5-21-111-222-333-1104")]);
    let sid_type = table(&[("S-1-5-21-111-222-333-1104", "User")]);
    replace_sid_members(&mut groups, &dn_sid, &sid_type, &Vec::new()).unwrap();
    assert_eq!(groups[0].members, vec![member("S-1-5-21-111-222-333-1104", "User")]);
}

#[test]
fn member_of_trusted_domain() {
    let mut g = Group::new();
    g.members = vec![member("CN=DOMAIN ADMINS,CN=USERS,DC=CORP,DC=EXAMPLE", "")];
    let mut groups = vec![g];
    let trusts = vec![Trust {
        target_domain_name: "CORP.EXAMPLE".to_string(),
        target_domain_sid: "S-1-5-21-999-888-777".to_string(),
        ..Default::default()
    }];
    replace_sid_members(&mut groups, &StringTable::new(), &StringTable::new(), &trusts).unwrap();
    assert_eq!(groups[0].members, vec![member("S-1-5-21-999-888-777-512", "Group")]);
}

fn ace(sid: &str) -> AceTemplate {
    AceTemplate { principal_sid: sid.to_string(), right_name: "GenericAll".to_string(), ..Default::default() }
}

#[test]
fn ace_types_are_labels_and_idempotent() {
    let mut c = Container::new();
    c.aces = vec![ace("S-1"), ace("S-2"), ace("S-3")];
    let mut containers = vec![c];
    let sid_type = table(&[("S-1", "User"), ("S-2", "Computer")]);
    add_type_for_ace(&mut containers, &sid_type).unwrap();
    let kinds: Vec<&str> = containers[0].aces.iter().map(|a| a.principal_type.as_str()).collect();
    assert_eq!(kinds, vec!["User", "Computer", "Group"]);
    assert_eq!(containers[0].aces[0].right_name, "GenericAll");
    let once = containers.clone();
    add_type_for_ace(&mut containers, &sid_type).unwrap();
    assert_eq!(containers, once);
}

#[test]
fn allowed_to_act_types_and_idempotent() {
    let mut c = Computer::new();
    c.allowed_to_act = vec![member("S-1", ""), member("S-9", "")];
    let mut computers = vec![c];
    let sid_type = table(&[("S-1", "User")]);
    add_type_for_allowtedtoact(&mut computers, &sid_type).unwrap();
    assert_eq!(computers[0].allowed_to_act, vec![member("S-1", "User"), member("S-9", "Computer")]);
    let once = computers.clone();
    add_type_for_allowtedtoact(&mut computers, &sid_type).unwrap();
    assert_eq!(computers, once);
}

#[test]
fn delegation_targets_resolved() {
    let mut u = User::new();
    u.spn_targets = vec![SPNTarget { computer_sid: "WEB.ESSOS.LOCAL".to_string(), port: 80, service: "HTTP".to_string() }];
    u.allowed_to_delegate = vec![member("SQL.ESSOS.LOCAL", "Computer"), member("UNKNOWN.HOST", "Computer")];
    let mut users = vec![u];
    let fqdn_sid = table(&[("WEB.ESSOS.LOCAL", "S-1-5-21-1-2-3-1101"), ("SQL.ESSOS.LOCAL", "S-1-5-21-1-2-3-1102")]);
    replace_fqdn_by_sid(Type::User, &mut users, &fqdn_sid).unwrap();
    assert_eq!(users[0].spn_targets[0].computer_sid, "S-1-5-21-1-2-3-1101");
    assert_eq!(users[0].spn_targets[0].port, 80);
    assert_eq!(ids(&users[0].allowed_to_delegate), vec!["S-1-5-21-1-2-3-1102", "UNKNOWN.HOST"]);

    let mut c = Computer::new();
    c.allowed_to_delegate = vec![member("SQL.ESSOS.LOCAL", "Computer")];
    let mut computers = vec![c];
    replace_fqdn_by_sid(Type::Computer, &mut computers, &fqdn_sid).unwrap();
    assert_eq!(ids(&computers[0].allowed_to_delegate), vec!["S-1-5-21-1-2-3-1102"]);

    let mut untouched = vec![computers[0].clone()];
    untouched[0].allowed_to_delegate = vec![member("SQL.ESSOS.LOCAL", "Computer")];
    replace_fqdn_by_sid(Type::Group, &mut untouched, &fqdn_sid).unwrap();
    assert_eq!(ids(&untouched[0].allowed_to_delegate), vec!["SQL.ESSOS.LOCAL"]);
}

#[test]
fn gplink_guid_rewritten() {
    let mut ou = Ou::new();
    ou.links = vec![Link { is_enforced: true, guid: "31B2F340-016D-11D2-945F-00C04FB984F9".to_string() }];
    let mut ous = vec![ou];
    let dn_sid = table(&[
        ("CN=USERS,DC=ESSOS,DC=LOCAL", "GUID-USERS"),
        ("CN={31B2F340-016D-11D2-945F-00C04FB984F9},CN=POLICIES,CN=SYSTEM,DC=ESSOS,DC=LOCAL", "GPO-GUID-CANONICAL"),
    ]);
    replace_guid_gplink(&mut ous, &dn_sid).unwrap();
    assert_eq!(ous[0].links, vec![Link { is_enforced: true, guid: "GPO-GUID-CANONICAL".to_string() }]);
}

fn essos_tables() -> (StringTable, StringTable) {
    let dn_sid = table(&[
        ("DC=ESSOS,DC=LOCAL", "S-1-5-21-1-2-3"),
        ("OU=WORKSTATIONS,DC=ESSOS,DC=LOCAL", "OU-GUID-1"),
        ("CN=WS01,OU=WORKSTATIONS,DC=ESSOS,DC=LOCAL", "S-1-5-21-1-2-3-1201"),
        ("CN=WS02,OU=WORKSTATIONS,DC=ESSOS,DC=LOCAL", "S-1-5-21-1-2-3-1202"),
        ("CN=BOB,OU=WORKSTATIONS,DC=ESSOS,DC=LOCAL", "S-1-5-21-1-2-3-1105"),
        ("CN=USERS,DC=ESSOS,DC=LOCAL", "CONTAINER-GUID-1"),
        ("CN=ALICE,CN=USERS,DC=ESSOS,DC=LOCAL", "S-1-5-21-1-2-3-1104"),
        ("CN=SRV01,CN=DEEP,OU=WORKSTATIONS,DC=ESSOS,DC=LOCAL", "S-1-5-21-1-2-3-1300"),
    ]);
    let sid_type = table(&[
        ("S-1-5-21-1-2-3", "Domain"),
        ("OU-GUID-1", "OU"),
        ("S-1-5-21-1-2-3-1201", "Computer"),
        ("S-1-5-21-1-2-3-1202", "Computer"),
        ("S-1-5-21-1-2-3-1105", "User"),
        ("CONTAINER-GUID-1", "Container"),
        ("S-1-5-21-1-2-3-1104", "User"),
        ("S-1-5-21-1-2-3-1300", "Computer"),
    ]);
    (dn_sid, sid_type)
}

fn workstations_ou() -> Ou {
    let mut ou = Ou::new();
    ou.object_identifier = "OU-GUID-1".to_string();
    ou.properties.name = "WORKSTATIONS@ESSOS.LOCAL".to_string();
    ou.properties.distinguishedname = "OU=WORKSTATIONS,DC=ESSOS,DC=LOCAL".to_string();
    ou
}

#[test]
fn ou_affected_computers() {
    let (dn_sid, sid_type) = essos_tables();
    let mut ous = vec![workstations_ou()];
    add_affected_computers_for_ou(&mut ous, &dn_sid, &sid_type).unwrap();
    let affected = &ous[0].gpo_changes.affected_computers;
    assert_eq!(*affected, vec![member("S-1-5-21-1-2-3-1201", "Computer"), member("S-1-5-21-1-2-3-1202", "Computer")]);
}

#[test]
fn ou_children_and_affected_subset() {
    let (dn_sid, sid_type) = essos_tables();
    let mut ous = vec![workstations_ou()];
    add_childobjects_members_for_ou(&mut ous, &dn_sid, &sid_type).unwrap();
    assert_eq!(
        ids(&ous[0].child_objects),
        vec!["S-1-5-21-1-2-3-1201", "S-1-5-21-1-2-3-1202", "S-1-5-21-1-2-3-1105"]
    );
    assert_eq!(ids(&ous[0].gpo_changes.affected_computers), vec!["S-1-5-21-1-2-3-1201", "S-1-5-21-1-2-3-1202"]);
    add_affected_computers_for_ou(&mut ous, &dn_sid, &sid_type).unwrap();
    let children = ids(&ous[0].child_objects);
    for c in ids(&ous[0].gpo_changes.affected_computers) {
        assert!(children.contains(&c));
    }
}

#[test]
fn container_children() {
    let (dn_sid, sid_type) = essos_tables();
    let mut c = Container::new();
    c.object_identifier = "container-guid-1".to_string();
    let mut containers = vec![c];
    add_childobjects_members(&mut containers, &dn_sid, &sid_type).unwrap();
    assert_eq!(containers[0].child_objects, vec![member("S-1-5-21-1-2-3-1104", "User")]);
}

#[test]
fn contained_by_set_from_parent_dn() {
    let (dn_sid, sid_type) = essos_tables();
    let mut alice = User::new();
    alice.object_identifier = "S-1-5-21-1-2-3-1104".to_string();
    let mut orphan = User::new();
    orphan.object_identifier = "S-1-5-21-1-2-3-1300".to_string();
    let mut users = vec![alice, orphan];
    add_contained_by_for(&mut users, &dn_sid, &sid_type).unwrap();
    assert_eq!(users[0].contained_by, Some(member("CONTAINER-GUID-1", "Container")));
    assert_eq!(users[1].contained_by, None);
    let known: Vec<String> = vec!["CONTAINER-GUID-1".to_string()];
    if let Some(m) = &users[0].contained_by {
        assert!(known.contains(&m.object_identifier));
    }

    let mut domain = Domain::new();
    domain.object_identifier = "S-1-5-21-1-2-3".to_string();
    let mut domains = vec![domain];
    add_contained_by_for(&mut domains, &dn_sid, &sid_type).unwrap();
    assert_eq!(domains[0].contained_by, None);
}

#[test]
fn domain_affected_computers() {
    let (_, sid_type) = essos_tables();
    let mut domains = vec![Domain::new(), Domain::new()];
    add_affected_computers(&mut domains, &sid_type).unwrap();
    assert_eq!(
        ids(&domains[0].gpo_changes.affected_computers),
        vec!["S-1-5-21-1-2-3-1201", "S-1-5-21-1-2-3-1202", "S-1-5-21-1-2-3-1300"]
    );
    assert!(domains[1].gpo_changes.affected_computers.is_empty());
    let mut none: Vec<Domain> = Vec::new();
    add_affected_computers(&mut none, &sid_type).unwrap();
    assert!(none.is_empty());
}

#[test]
fn trusted_domains_injected() {
    let mut domains = vec![Domain::new()];
    let mut trusts = vec![Trust {
        target_domain_name: "CORP.EXAMPLE".to_string(),
        target_domain_sid: "S-1-5-21-999-888-777".to_string(),
        ..Default::default()
    }];
    add_trustdomain(&mut domains, &mut trusts).unwrap();
    assert_eq!(domains.len(), 2);
    assert_eq!(domains[1].object_identifier, "S-1-5-21-999-888-777");
    assert_eq!(domains[1].properties.name, "CORP.EXAMPLE");
    assert_eq!(domains[1].properties.domain, "CORP.EXAMPLE");
    assert_eq!(domains[1].properties.distinguishedname, "DC=CORP,DC=EXAMPLE");
    assert!(domains[1].properties.highvalue);
    assert_eq!(domains[0].trusts, trusts);
}

#[test]
fn placeholder_trusts_are_skipped() {
    let mut domains = vec![Domain::new()];
    let mut trusts = vec![Trust { target_domain_sid: "SID".to_string(), ..Default::default() }];
    add_trustdomain(&mut domains, &mut trusts).unwrap();
    assert_eq!(domains.len(), 1);
    assert!(domains[0].trusts.is_empty());
}

#[test]
fn container_parse_records_indices() {
    let mut c = Container::new();
    let mut dn_sid = StringTable::new();
    let mut sid_type = StringTable::new();
    let attrs = ContainerAttributes {
        dn: "cn=Users,dc=essos,dc=local".to_string(),
        name: Some("Users".to_string()),
        description: Some("Default container".to_string()),
        when_created: Some(1_600_000_000),
        object_guid: Some("AAAA-BBBB".to_string()),
        aces: None,
        is_deleted: false,
    };
    c.parse(attrs, "essos.local", &mut dn_sid, &mut sid_type, "S-1-5-21-1-2-3").unwrap();
    assert_eq!(c.properties.name, "USERS@ESSOS.LOCAL");
    assert_eq!(c.properties.domain, "ESSOS.LOCAL");
    assert_eq!(c.properties.distinguishedname, "CN=USERS,DC=ESSOS,DC=LOCAL");
    assert_eq!(c.properties.whencreated, 1_600_000_000);
    assert_eq!(dn_sid.get("CN=USERS,DC=ESSOS,DC=LOCAL").map(|s| s.as_str()), Some("AAAA-BBBB"));
    assert_eq!(sid_type.get("AAAA-BBBB").map(|s| s.as_str()), Some("Container"));
}

#[test]
fn table_replaces_in_place() {
    let mut t = StringTable::new();
    t.insert("A".to_string(), "1".to_string());
    t.insert("B".to_string(), "2".to_string());
    t.insert("A".to_string(), "3".to_string());
    assert_eq!(t.len(), 2);
    assert_eq!(t.key_at(0), "A");
    assert_eq!(t.value_at(0), "3");
    assert_eq!(t.find_key("2").map(|s| s.as_str()), Some("B"));
    assert_eq!(t.find_containing("B").map(|s| s.as_str()), Some("2"));
}

#[test]
fn acl_protection_set_on_object_and_properties() {
    let mut c = Container::new();
    c.set_is_acl_protected(true);
    assert!(c.is_acl_protected);
    assert!(c.properties.isaclprotected);
}

#[test]
fn child_must_sit_directly_below() {
    let dn = "OU=A,DC=X".to_string();
    let name = "A".to_string();
    assert!(direct_child(&"CN=B,OU=A,DC=X".to_string(), &dn, &name));
    assert!(!direct_child(&"CN=B,OU=A,DC=X,DC=Y".to_string(), &dn, &name));
    assert!(!direct_child(&"CN=C,CN=B,OU=A,DC=X".to_string(), &dn, &name));
    assert!(!direct_child(&dn, &dn, &name));

    let dn_sid = table(&[
        ("OU=A,DC=X", "OU-A"),
        ("CN=B,OU=A,DC=X,DC=Y", "S-OTHER"),
        ("CN=C,OU=A,DC=X", "S-C"),
    ]);
    let sid_type = table(&[("OU-A", "OU"), ("S-OTHER", "Computer"), ("S-C", "Computer")]);
    let mut ou = Ou::new();
    ou.object_identifier = "OU-A".to_string();
    ou.properties.name = "A@X".to_string();
    ou.properties.distinguishedname = "OU=A,DC=X".to_string();
    let mut ous = vec![ou];
    add_childobjects_members_for_ou(&mut ous, &dn_sid, &sid_type).unwrap();
    assert_eq!(ids(&ous[0].child_objects), vec!["S-C"]);
    assert_eq!(ids(&ous[0].gpo_changes.affected_computers), vec!["S-C"]);
}

#[test]
fn ou_fields_are_uppercased_on_read() {
    let (dn_sid, sid_type) = essos_tables();
    let mut ou = workstations_ou();
    ou.object_identifier = "ou-guid-1".to_string();
    ou.properties.name = "workstations@essos.local".to_string();
    ou.properties.distinguishedname = "ou=workstations,dc=essos,dc=local".to_string();
    let mut ous = vec![ou];
    add_childobjects_members_for_ou(&mut ous, &dn_sid, &sid_type).unwrap();
    assert_eq!(ous[0].child_objects.len(), 3);
    add_affected_computers_for_ou(&mut ous, &dn_sid, &sid_type).unwrap();
    assert_eq!(ids(&ous[0].gpo_changes.affected_computers), vec!["S-1-5-21-1-2-3-1201", "S-1-5-21-1-2-3-1202"]);
    let mut alice = User::new();
    alice.object_identifier = "s-1-5-21-1-2-3-1104".to_string();
    let mut users = vec![alice];
    add_contained_by_for(&mut users, &dn_sid, &sid_type).unwrap();
    assert_eq!(users[0].contained_by, Some(member("CONTAINER-GUID-1", "Container")));
}

#[test]
fn domain_sid_found_inside_dc_identifier() {
    let mut groups: Vec<Group> = Vec::new();
    let computers = vec![computer("ESSOS.LOCAL-S-1-5-21-111-222-333-1000", true)];
    add_default_groups(&mut groups, &computers, "ESSOS.LOCAL".to_string()).unwrap();
    assert_eq!(groups[3].members[0].object_identifier, "S-1-5-21-111-222-333-515");
}
