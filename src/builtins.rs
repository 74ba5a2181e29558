//! Well-known groups and the NT AUTHORITY user, which the directory never returns.

use vstd::prelude::*;
use crate::objects::{Computer, Group, Member, MemberView, User, members_view};
use crate::sid::{LinkError, domain_part, find_sid, get_domain_part, sid_pattern, regex_first_match};
use crate::text::{to_upper, upper_of};

verus! {

pub const BUILTIN_GROUPS: usize = 12;

/// Well-known SID suffix of the `k`-th built-in group.
pub open spec fn builtin_suffix(k: int) -> Seq<char> {
    if k == 0 {
        "-S-1-5-9"@
    } else if k == 1 {
        "-S-1-5-32-548"@
    } else if k == 2 {
        "-S-1-5-32-560"@
    } else if k == 3 {
        "-S-1-1-0"@
    } else if k == 4 {
        "-S-1-5-11"@
    } else if k == 5 {
        "-S-1-5-32-544"@
    } else if k == 6 {
        "-S-1-5-32-554"@
    } else if k == 7 {
        "-S-1-5-4"@
    } else if k == 8 {
        "-S-1-5-32-550"@
    } else if k == 9 {
        "-S-1-5-32-561"@
    } else if k == 10 {
        "-S-1-5-32-557"@
    } else {
        "-S-1-5-15"@
    }
}

/// Display name of the `k`-th built-in group, up to and including the `@`.
pub open spec fn builtin_label(k: int) -> Seq<char> {
    if k == 0 {
        "ENTERPRISE DOMAIN CONTROLLERS@"@
    } else if k == 1 {
        "ACCOUNT OPERATORS@"@
    } else if k == 2 {
        "WINDOWS AUTHORIZATION ACCESS GROUP@"@
    } else if k == 3 {
        "EVERYONE@"@
    } else if k == 4 {
        "AUTHENTICATED USERS@"@
    } else if k == 5 {
        "ADMINISTRATORS@"@
    } else if k == 6 {
        "PRE-WINDOWS 2000 COMPATIBLE ACCESS@"@
    } else if k == 7 {
        "INTERACTIVE@"@
    } else if k == 8 {
        "PRINT OPERATORS@"@
    } else if k == 9 {
        "TERMINAL SERVER LICENSE SERVERS@"@
    } else if k == 10 {
        "INCOMING FOREST TRUST BUILDERS@"@
    } else {
        "THIS ORGANIZATION@"@
    }
}

/// Account operators, administrators and print operators are high-value targets.
pub open spec fn builtin_highvalue(k: int) -> bool {
    k == 1 || k == 5 || k == 8
}

/// Domain Computers and Domain Users of the domain, as group members.
pub open spec fn domain_wide_members(domain_sid: Seq<char>) -> Seq<MemberView> {
    seq![
        MemberView { object_identifier: domain_sid + "-515"@, object_type: "Group"@ },
        MemberView { object_identifier: domain_sid + "-513"@, object_type: "Group"@ },
    ]
}

/// Members of the `k`-th built-in group: the domain controllers for ENTERPRISE DOMAIN
/// CONTROLLERS, Domain Computers and Domain Users for EVERYONE and AUTHENTICATED USERS.
pub open spec fn builtin_members(k: int, dcs: Seq<MemberView>, domain_sid: Seq<char>) -> Seq<
    MemberView,
> {
    if k == 0 {
        dcs
    } else if k == 3 || k == 4 {
        domain_wide_members(domain_sid)
    } else {
        Seq::empty()
    }
}

/// A group that has only an identifier, a name, a high-value flag and members.
pub open spec fn is_plain_group(
    g: Group,
    id: Seq<char>,
    name: Seq<char>,
    highvalue: bool,
    members: Seq<MemberView>,
) -> bool {
    &&& g.object_identifier@ == id
    &&& g.properties.name@ == name
    &&& g.properties.highvalue == highvalue
    &&& members_view(g.members@) == members
    &&& g.properties.domain@.len() == 0
    &&& g.properties.distinguishedname@.len() == 0
    &&& g.properties.domainsid@.len() == 0
    &&& g.properties.description is None
    &&& g.aces@.len() == 0
    &&& g.contained_by is None
    &&& !g.is_deleted
    &&& !g.is_acl_protected
}

/// The `k`-th built-in group of the domain `domain` (uppercase).
pub open spec fn is_builtin_group(
    g: Group,
    k: int,
    domain: Seq<char>,
    dcs: Seq<MemberView>,
    domain_sid: Seq<char>,
) -> bool {
    is_plain_group(
        g,
        domain + builtin_suffix(k),
        builtin_label(k) + domain,
        builtin_highvalue(k),
        builtin_members(k, dcs, domain_sid),
    )
}

/// The domain controllers among `computers`, as members typed `Computer`.
pub open spec fn dc_members(computers: Seq<Computer>) -> Seq<MemberView>
    decreases computers.len(),
{
    if computers.len() == 0 {
        Seq::empty()
    } else {
        let c = computers.last();
        dc_members(computers.drop_last()) + if c.properties.is_dc {
            seq![MemberView { object_identifier: c.object_identifier@, object_type: "Computer"@ }]
        } else {
            Seq::empty()
        }
    }
}

/// The domain SID read from the last domain controller whose identifier holds a SID;
/// empty when there is none.
pub open spec fn dc_domain_sid(computers: Seq<Computer>) -> Seq<char>
    decreases computers.len(),
{
    if computers.len() == 0 {
        Seq::empty()
    } else {
        let c = computers.last();
        if c.properties.is_dc && regex_first_match(sid_pattern(), c.object_identifier@) is Some {
            domain_part(regex_first_match(sid_pattern(), c.object_identifier@)->0)
        } else {
            dc_domain_sid(computers.drop_last())
        }
    }
}

fn make_group(domain: &str, suffix: &str, label: &str, highvalue: bool, members: Vec<Member>) -> (g: Group)
    ensures
        is_plain_group(g, domain@ + suffix@, label@ + domain@, highvalue, members_view(members@)),
{
    let mut g = Group::new();
    let mut id = domain.to_owned();
    id.append(suffix);
    let mut name = label.to_owned();
    name.append(domain);
    g.object_identifier = id;
    g.properties.name = name;
    g.properties.highvalue = highvalue;
    g.members = members;
    g
}

fn domain_wide(domain_sid: &str) -> (r: Vec<Member>)
    ensures
        members_view(r@) == domain_wide_members(domain_sid@),
{
    let mut computers = domain_sid.to_owned();
    computers.append("-515");
    let mut users = domain_sid.to_owned();
    users.append("-513");
    let r = vec![
        Member { object_identifier: computers, object_type: "Group".to_owned() },
        Member { object_identifier: users, object_type: "Group".to_owned() },
    ];
    assert(members_view(r@) =~= domain_wide_members(domain_sid@));
    r
}

/// The twelve built-in groups of the domain `domain` (already uppercase), with the domain
/// controllers `dcs` and the domain SID `domain_sid`.
pub fn builtin_groups(domain: &str, dcs: Vec<Member>, domain_sid: &str) -> (r: Vec<Group>)
    ensures
        r@.len() == BUILTIN_GROUPS,
        forall|k: int|
            0 <= k < BUILTIN_GROUPS ==> is_builtin_group(
                #[trigger] r@[k],
                k,
                domain@,
                members_view(dcs@),
                domain_sid@,
            ),
{
    let ghost dcs_view = members_view(dcs@);
    let mut r: Vec<Group> = Vec::new();
    r.push(make_group(domain, "-S-1-5-9", "ENTERPRISE DOMAIN CONTROLLERS@", false, dcs));
    r.push(make_group(domain, "-S-1-5-32-548", "ACCOUNT OPERATORS@", true, Vec::new()));
    r.push(make_group(domain, "-S-1-5-32-560", "WINDOWS AUTHORIZATION ACCESS GROUP@", false, Vec::new()));
    r.push(make_group(domain, "-S-1-1-0", "EVERYONE@", false, domain_wide(domain_sid)));
    r.push(make_group(domain, "-S-1-5-11", "AUTHENTICATED USERS@", false, domain_wide(domain_sid)));
    r.push(make_group(domain, "-S-1-5-32-544", "ADMINISTRATORS@", true, Vec::new()));
    r.push(make_group(domain, "-S-1-5-32-554", "PRE-WINDOWS 2000 COMPATIBLE ACCESS@", false, Vec::new()));
    r.push(make_group(domain, "-S-1-5-4", "INTERACTIVE@", false, Vec::new()));
    r.push(make_group(domain, "-S-1-5-32-550", "PRINT OPERATORS@", true, Vec::new()));
    r.push(make_group(domain, "-S-1-5-32-561", "TERMINAL SERVER LICENSE SERVERS@", false, Vec::new()));
    r.push(make_group(domain, "-S-1-5-32-557", "INCOMING FOREST TRUST BUILDERS@", false, Vec::new()));
    r.push(make_group(domain, "-S-1-5-15", "THIS ORGANIZATION@", false, Vec::new()));
    proof {
        assert forall|k: int| 0 <= k < BUILTIN_GROUPS implies is_builtin_group(
            #[trigger] r@[k],
            k,
            domain@,
            dcs_view,
            domain_sid@,
        ) by {
            assert(members_view(Seq::<Member>::empty()) =~= Seq::<MemberView>::empty());
        }
    }
    r
}

/// Function to add default groups: appends the twelve built-in groups of `domain`. The
/// members of ENTERPRISE DOMAIN CONTROLLERS are the domain controllers of `vec_computers`,
/// and the domain SID is read from their identifiers.
pub fn add_default_groups(vec_groups: &mut Vec<Group>, vec_computers: &Vec<Computer>, domain: String) -> (r: Result<(), LinkError>)
    ensures
        r is Ok,
        final(vec_groups)@.len() == old(vec_groups)@.len() + BUILTIN_GROUPS,
        final(vec_groups)@.take(old(vec_groups)@.len() as int) == old(vec_groups)@,
        forall|k: int|
            0 <= k < BUILTIN_GROUPS ==> is_builtin_group(
                #[trigger] final(vec_groups)@[old(vec_groups)@.len() + k],
                k,
                upper_of(domain@),
                dc_members(vec_computers@),
                dc_domain_sid(vec_computers@),
            ),
{
    let mut dcs: Vec<Member> = Vec::new();
    let mut domain_sid = String::new();
    let mut i: usize = 0;
    while i < vec_computers.len()
        invariant
            i <= vec_computers@.len(),
            members_view(dcs@) == dc_members(vec_computers@.take(i as int)),
            domain_sid@ == dc_domain_sid(vec_computers@.take(i as int)),
        decreases vec_computers@.len() - i,
    {
        let computer = &vec_computers[i];
        let ghost prefix = vec_computers@.take(i + 1);
        assert(prefix.drop_last() =~= vec_computers@.take(i as int));
        assert(prefix.last() == vec_computers@[i as int]);
        if computer.properties.is_dc {
            let ghost before = dcs@;
            dcs.push(Member { object_identifier: computer.object_identifier.clone(), object_type: "Computer".to_owned() });
            assert(members_view(dcs@) =~= members_view(before) + seq![
                MemberView { object_identifier: computer.object_identifier@, object_type: "Computer"@ },
            ]);
            match find_sid("S-[0-9]+-[0-9]+-[0-9]+(?:-[0-9]+)+", computer.object_identifier.as_str()) {
                Ok(Some(m)) => {
                    domain_sid = get_domain_part(m.as_str());
                },
                _ => {},
            }
        } else {
            assert(members_view(dcs@) =~= members_view(dcs@) + Seq::<MemberView>::empty());
        }
        i += 1;
    }
    assert(vec_computers@.take(i as int) =~= vec_computers@);
    let upper = to_upper(domain.as_str());
    let mut groups = builtin_groups(upper.as_str(), dcs, domain_sid.as_str());
    let ghost start = vec_groups@;
    let ghost added = groups@;
    vec_groups.append(&mut groups);
    assert(vec_groups@.take(start.len() as int) =~= start);
    assert forall|k: int| 0 <= k < BUILTIN_GROUPS implies vec_groups@[start.len() + k] == added[k] by {}
    Ok(())
}

/// The NT AUTHORITY user of the domain `domain` (uppercase), with the domain SID `domainsid`.
pub open spec fn is_nt_authority(u: User, domain: Seq<char>, domainsid: Seq<char>) -> bool {
    &&& u.object_identifier@ == domain + "-S-1-5-20"@
    &&& u.properties.name@ == "NT AUTHORITY@"@ + domain
    &&& u.properties.domainsid@ == domainsid
    &&& !u.properties.highvalue
    &&& u.properties.domain@.len() == 0
    &&& u.properties.distinguishedname@.len() == 0
    &&& u.properties.description is None
    &&& u.aces@.len() == 0
    &&& u.contained_by is None
    &&& u.spn_targets@.len() == 0
    &&& u.allowed_to_delegate@.len() == 0
    &&& !u.is_deleted
    &&& !u.is_acl_protected
}

/// Function to add the default user NT AUTHORITY, with the domain SID of the first user.
pub fn add_default_users(vec_users: &mut Vec<User>, domain: String) -> (r: Result<(), LinkError>)
    requires
        old(vec_users)@.len() > 0,
    ensures
        r is Ok,
        final(vec_users)@.len() == old(vec_users)@.len() + 1,
        final(vec_users)@.take(old(vec_users)@.len() as int) == old(vec_users)@,
        is_nt_authority(
            final(vec_users)@.last(),
            upper_of(domain@),
            old(vec_users)@[0].properties.domainsid@,
        ),
{
    let upper = to_upper(domain.as_str());
    let mut user = User::new();
    let mut sid = upper.clone();
    sid.append("-S-1-5-20");
    let mut name = "NT AUTHORITY@".to_owned();
    name.append(upper.as_str());
    user.properties.name = name;
    user.object_identifier = sid;
    user.properties.domainsid = vec_users[0].properties.domainsid.clone();
    let ghost before = vec_users@;
    vec_users.push(user);
    assert(vec_users@.take(before.len() as int) =~= before);
    Ok(())
}

} // verus!
