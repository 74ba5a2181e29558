//! The link-resolution passes: they label edges with the type of the object they reach,
//! translate DNs and host names into identifiers, and build the containment edges.

use vstd::prelude::*;
use crate::objects::{
    AceTemplate, AceView, Computer, Group, LdapObject, Link, LinkView, Member, MemberView, SPNTarget,
    SpnView, Trust, Type, aces_view, links_view, members_view, spns_view,
};
use crate::sid::{LinkError, foreign_sid, sid_maker_from_another_domain};
use crate::table::{Entries, StringTable, lookup, lookup_containing, lookup_or};
use crate::text::lemma_first_index_bounds;

verus! {

/// The type label stored for `sid`, or `default`.
pub fn type_or(sid_type: &StringTable, sid: &str, default: &str) -> (r: String)
    ensures
        r@ == lookup_or(sid_type@, sid@, default@),
{
    match sid_type.get(sid) {
        Some(t) => t.clone(),
        None => default.to_owned(),
    }
}

/// Access-control entries with their principal typed from `sid_type` (`Group` by default).
pub open spec fn retype_aces(aces: Seq<AceView>, sid_type: Entries) -> Seq<AceView> {
    aces.map_values(
        |a: AceView|
            AceView {
                principal_type: lookup_or(sid_type, a.principal_sid, "Group"@),
                ..a
            },
    )
}

/// Members typed from `sid_type`, or `default` when their identifier has no type.
pub open spec fn retype_members(ms: Seq<MemberView>, sid_type: Entries, default: Seq<char>) -> Seq<
    MemberView,
> {
    ms.map_values(
        |m: MemberView|
            MemberView { object_type: lookup_or(sid_type, m.object_identifier, default), ..m },
    )
}

/// Members whose identifier is a key of `fqdn_sid` get the identifier stored there.
pub open spec fn resolve_member_ids(ms: Seq<MemberView>, fqdn_sid: Entries) -> Seq<MemberView> {
    ms.map_values(
        |m: MemberView|
            MemberView {
                object_identifier: lookup_or(fqdn_sid, m.object_identifier, m.object_identifier),
                ..m
            },
    )
}

/// SPN targets whose computer is a key of `fqdn_sid` get the identifier stored there.
pub open spec fn resolve_spns(ts: Seq<SpnView>, fqdn_sid: Entries) -> Seq<SpnView> {
    ts.map_values(
        |t: SpnView|
            SpnView { computer_sid: lookup_or(fqdn_sid, t.computer_sid, t.computer_sid), ..t },
    )
}

/// Links whose GUID occurs in a key of `dn_sid` get the identifier of the first such key.
pub open spec fn relink(ls: Seq<LinkView>, dn_sid: Entries) -> Seq<LinkView> {
    ls.map_values(
        |l: LinkView|
            LinkView {
                guid: match lookup_containing(dn_sid, l.guid) {
                    Some(g) => g,
                    None => l.guid,
                },
                ..l
            },
    )
}

/// A group member given by DN, resolved: through `dn_sid` when the DN is known there, else
/// as a principal of a trusted domain, typed `Group`.
pub open spec fn resolve_member(
    m: MemberView,
    dn_sid: Entries,
    sid_type: Entries,
    trusts: Seq<Trust>,
) -> MemberView {
    match lookup(dn_sid, m.object_identifier) {
        Some(sid) => MemberView {
            object_identifier: sid,
            object_type: lookup_or(sid_type, sid, "Group"@),
        },
        None => MemberView {
            object_identifier: foreign_sid(trusts, m.object_identifier),
            object_type: "Group"@,
        },
    }
}

pub open spec fn resolve_members(
    ms: Seq<MemberView>,
    dn_sid: Entries,
    sid_type: Entries,
    trusts: Seq<Trust>,
) -> Seq<MemberView> {
    ms.map_values(|m: MemberView| resolve_member(m, dn_sid, sid_type, trusts))
}

/// `new` is `old` with its access-control entries typed from `sid_type`, nothing else changed.
pub open spec fn aces_typed<T: LdapObject>(old: Seq<T>, new: Seq<T>, sid_type: Entries) -> bool {
    &&& new.len() == old.len()
    &&& forall|i: int| 0 <= i < old.len() ==> ace_typed_one(old[i], #[trigger] new[i], sid_type)
}

/// One object of `aces_typed`.
pub open spec fn ace_typed_one<T: LdapObject>(old: T, new: T, sid_type: Entries) -> bool {
    &&& new.spec_fixed() == old.spec_fixed()
    &&& new.spec_aces() == retype_aces(old.spec_aces(), sid_type)
    &&& new.spec_object_identifier() == old.spec_object_identifier()
    &&& new.spec_contained_by() == old.spec_contained_by()
    &&& new.spec_child_objects() == old.spec_child_objects()
    &&& new.spec_links() == old.spec_links()
    &&& new.spec_spntargets() == old.spec_spntargets()
    &&& new.spec_allowed_to_delegate() == old.spec_allowed_to_delegate()
}

fn retyped_aces(src: &[AceTemplate], sid_type: &StringTable) -> (r: Vec<AceTemplate>)
    ensures
        r@.len() == src@.len(),
        aces_view(r@) == retype_aces(aces_view(src@), sid_type@),
{
    let mut out: Vec<AceTemplate> = Vec::new();
    let mut j: usize = 0;
    while j < src.len()
        invariant
            j <= src@.len(),
            out@.len() == j,
            aces_view(out@) == retype_aces(aces_view(src@), sid_type@).take(j as int),
        decreases src@.len() - j,
    {
        let a = &src[j];
        let t = type_or(sid_type, a.principal_sid.as_str(), "Group");
        out.push(
            AceTemplate {
                principal_sid: a.principal_sid.clone(),
                principal_type: t,
                right_name: a.right_name.clone(),
                is_inherited: a.is_inherited,
            },
        );
        proof {
            let ghost want = retype_aces(aces_view(src@), sid_type@);
            assert(aces_view(src@)[j as int] == src@[j as int]@);
            assert(aces_view(out@) =~= want.take(j + 1));
        }
        j += 1;
    }
    proof {
        assert(aces_view(out@) =~= retype_aces(aces_view(src@), sid_type@));
    }
    out
}

/// This function checks PrincipalSID for all ACEs and adds the PrincipalType: the type stored
/// in `sid_type`, `Group` when there is none.
pub fn add_type_for_ace<T: LdapObject>(object: &mut Vec<T>, sid_type: &StringTable) -> (r: Result<
    (),
    LinkError,
>)
    ensures
        r is Ok,
        aces_typed(old(object)@, final(object)@, sid_type@),
{
    let mut i: usize = 0;
    while i < object.len()
        invariant
            i <= object@.len() == old(object)@.len(),
            forall|j: int| 0 <= j < i ==> ace_typed_one(old(object)@[j], #[trigger] object@[j], sid_type@),
            forall|j: int| i <= j < object@.len() ==> object@[j] == old(object)@[j],
        decreases object@.len() - i,
    {
        let aces = retyped_aces(object[i].get_aces(), sid_type);
        object[i].set_aces(aces);
        i += 1;
    }
    Ok(())
}

fn retyped_members(src: &[Member], sid_type: &StringTable, default: &str) -> (r: Vec<Member>)
    ensures
        r@.len() == src@.len(),
        members_view(r@) == retype_members(members_view(src@), sid_type@, default@),
{
    let mut out: Vec<Member> = Vec::new();
    let mut j: usize = 0;
    while j < src.len()
        invariant
            j <= src@.len(),
            out@.len() == j,
            members_view(out@) == retype_members(members_view(src@), sid_type@, default@).take(j as int),
        decreases src@.len() - j,
    {
        let m = &src[j];
        let t = type_or(sid_type, m.object_identifier.as_str(), default);
        out.push(Member { object_identifier: m.object_identifier.clone(), object_type: t });
        proof {
            assert(members_view(src@)[j as int] == src@[j as int]@);
            assert(members_view(out@) =~= retype_members(members_view(src@), sid_type@, default@).take(j + 1));
        }
        j += 1;
    }
    proof {
        assert(members_view(out@) =~= retype_members(members_view(src@), sid_type@, default@));
    }
    out
}

/// `new` is `old` with the AllowedToAct principals typed from `sid_type`, nothing else changed.
pub open spec fn act_typed(old: Seq<Computer>, new: Seq<Computer>, sid_type: Entries) -> bool {
    &&& new.len() == old.len()
    &&& forall|i: int| 0 <= i < old.len() ==> act_typed_one(old[i], #[trigger] new[i], sid_type)
}

/// One computer of `act_typed`.
pub open spec fn act_typed_one(old: Computer, new: Computer, sid_type: Entries) -> bool {
    &&& members_view(new.allowed_to_act@) == retype_members(
        members_view(old.allowed_to_act@),
        sid_type,
        "Computer"@,
    )
    &&& new == Computer { allowed_to_act: new.allowed_to_act, ..old }
}

/// This function checks PrincipalSID for all AllowedToAct objects and adds the PrincipalType:
/// the type stored in `sid_type`, `Computer` when there is none.
pub fn add_type_for_allowtedtoact(computer: &mut Vec<Computer>, sid_type: &StringTable) -> (r:
    Result<(), LinkError>)
    ensures
        r is Ok,
        act_typed(old(computer)@, final(computer)@, sid_type@),
{
    let mut i: usize = 0;
    while i < computer.len()
        invariant
            i <= computer@.len() == old(computer)@.len(),
            forall|j: int| 0 <= j < i ==> act_typed_one(old(computer)@[j], #[trigger] computer@[j], sid_type@),
            forall|j: int| i <= j < computer@.len() ==> computer@[j] == old(computer)@[j],
        decreases computer@.len() - i,
    {
        let typed = retyped_members(computer[i].allowed_to_act.as_slice(), sid_type, "Computer");
        computer[i].allowed_to_act = typed;
        i += 1;
    }
    Ok(())
}

/// The type labels of the collected objects.
pub open spec fn is_type_label(s: Seq<char>) -> bool {
    ||| s == "User"@
    ||| s == "Group"@
    ||| s == "Computer"@
    ||| s == "OU"@
    ||| s == "Domain"@
    ||| s == "Container"@
    ||| s == "GPO"@
}

/// Every value of the table is a type label.
pub open spec fn labels_only(sid_type: Entries) -> bool {
    forall|i: int| 0 <= i < sid_type.len() ==> is_type_label(#[trigger] sid_type[i].1)
}

proof fn lemma_lookup_label(sid_type: Entries, sid: Seq<char>, default: Seq<char>)
    requires
        labels_only(sid_type),
        is_type_label(default),
    ensures
        is_type_label(lookup_or(sid_type, sid, default)),
        lookup_or(sid_type, sid, default).len() > 0,
{
    lemma_first_index_bounds(sid_type, crate::table::key_is(sid));
    reveal_strlit("User");
    reveal_strlit("Group");
    reveal_strlit("Computer");
    reveal_strlit("OU");
    reveal_strlit("Domain");
    reveal_strlit("Container");
    reveal_strlit("GPO");
}

/// Once the access-control entries are typed from a table whose values are all type labels,
/// every entry's principal type is a type label, and so never empty.
pub proof fn lemma_typed_aces_are_labelled<T: LdapObject>(
    old: Seq<T>,
    new: Seq<T>,
    sid_type: Entries,
)
    requires
        aces_typed(old, new, sid_type),
        labels_only(sid_type),
    ensures
        forall|i: int, j: int|
            0 <= i < new.len() && 0 <= j < new[i].spec_aces().len() ==> is_type_label(
                (#[trigger] new[i].spec_aces()[j]).principal_type,
            ) && new[i].spec_aces()[j].principal_type.len() > 0,
{
    assert forall|i: int, j: int|
        0 <= i < new.len() && 0 <= j < new[i].spec_aces().len() implies is_type_label(
            (#[trigger] new[i].spec_aces()[j]).principal_type,
        ) && new[i].spec_aces()[j].principal_type.len() > 0 by {
        assert(ace_typed_one(old[i], new[i], sid_type));
        let a = old[i].spec_aces()[j];
        lemma_lookup_label(sid_type, a.principal_sid, "Group"@);
    }
}

/// Typing the access-control entries twice gives what typing them once gives.
pub proof fn lemma_ace_typing_idempotent<T: LdapObject>(
    once: Seq<T>,
    twice: Seq<T>,
    original: Seq<T>,
    sid_type: Entries,
)
    requires
        aces_typed(original, once, sid_type),
        aces_typed(once, twice, sid_type),
    ensures
        forall|i: int|
            0 <= i < once.len() ==> (#[trigger] twice[i]).spec_aces() == once[i].spec_aces(),
{
    assert forall|i: int| 0 <= i < once.len() implies (#[trigger] twice[i]).spec_aces()
        == once[i].spec_aces() by {
        assert(ace_typed_one(original[i], once[i], sid_type));
        assert(ace_typed_one(once[i], twice[i], sid_type));
        assert(twice[i].spec_aces() =~= once[i].spec_aces());
    }
}

/// Typing the AllowedToAct principals twice gives what typing them once gives.
pub proof fn lemma_act_typing_idempotent(
    once: Seq<Computer>,
    twice: Seq<Computer>,
    original: Seq<Computer>,
    sid_type: Entries,
)
    requires
        act_typed(original, once, sid_type),
        act_typed(once, twice, sid_type),
    ensures
        forall|i: int|
            0 <= i < once.len() ==> members_view((#[trigger] twice[i]).allowed_to_act@)
                == members_view(once[i].allowed_to_act@) && twice[i] == (Computer {
                allowed_to_act: twice[i].allowed_to_act,
                ..once[i]
            }),
{
    assert forall|i: int| 0 <= i < once.len() implies members_view(
        (#[trigger] twice[i]).allowed_to_act@,
    ) == members_view(once[i].allowed_to_act@) && twice[i] == (Computer {
        allowed_to_act: twice[i].allowed_to_act,
        ..once[i]
    }) by {
        assert(act_typed_one(original[i], once[i], sid_type));
        assert(act_typed_one(once[i], twice[i], sid_type));
        assert(members_view(twice[i].allowed_to_act@) =~= members_view(once[i].allowed_to_act@));
    }
}

fn resolved_member_ids(src: &[Member], fqdn_sid: &StringTable) -> (r: Vec<Member>)
    ensures
        r@.len() == src@.len(),
        members_view(r@) == resolve_member_ids(members_view(src@), fqdn_sid@),
{
    let mut out: Vec<Member> = Vec::new();
    let mut j: usize = 0;
    while j < src.len()
        invariant
            j <= src@.len(),
            out@.len() == j,
            members_view(out@) == resolve_member_ids(members_view(src@), fqdn_sid@).take(j as int),
        decreases src@.len() - j,
    {
        let m = &src[j];
        let id = type_or(fqdn_sid, m.object_identifier.as_str(), m.object_identifier.as_str());
        out.push(Member { object_identifier: id, object_type: m.object_type.clone() });
        proof {
            assert(members_view(src@)[j as int] == src@[j as int]@);
            assert(members_view(out@) =~= resolve_member_ids(members_view(src@), fqdn_sid@).take(j + 1));
        }
        j += 1;
    }
    proof {
        assert(members_view(out@) =~= resolve_member_ids(members_view(src@), fqdn_sid@));
    }
    out
}

fn resolved_spns(src: &[SPNTarget], fqdn_sid: &StringTable) -> (r: Vec<SPNTarget>)
    ensures
        r@.len() == src@.len(),
        spns_view(r@) == resolve_spns(spns_view(src@), fqdn_sid@),
{
    let mut out: Vec<SPNTarget> = Vec::new();
    let mut j: usize = 0;
    while j < src.len()
        invariant
            j <= src@.len(),
            out@.len() == j,
            spns_view(out@) == resolve_spns(spns_view(src@), fqdn_sid@).take(j as int),
        decreases src@.len() - j,
    {
        let t = &src[j];
        let id = type_or(fqdn_sid, t.computer_sid.as_str(), t.computer_sid.as_str());
        out.push(SPNTarget { computer_sid: id, port: t.port, service: t.service.clone() });
        proof {
            assert(spns_view(src@)[j as int] == src@[j as int]@);
            assert(spns_view(out@) =~= resolve_spns(spns_view(src@), fqdn_sid@).take(j + 1));
        }
        j += 1;
    }
    proof {
        assert(spns_view(out@) =~= resolve_spns(spns_view(src@), fqdn_sid@));
    }
    out
}

/// One object of `fqdn_resolved`: users get their SPN targets and delegation targets
/// resolved, computers their delegation targets; nothing else changes.
pub open spec fn fqdn_resolved_one<T: LdapObject>(object_type: Type, old: T, new: T, fqdn_sid: Entries) -> bool {
    &&& new.spec_fixed() == old.spec_fixed()
    &&& new.spec_spntargets() == if object_type is User {
        resolve_spns(old.spec_spntargets(), fqdn_sid)
    } else {
        old.spec_spntargets()
    }
    &&& new.spec_allowed_to_delegate() == if object_type is User || object_type is Computer {
        resolve_member_ids(old.spec_allowed_to_delegate(), fqdn_sid)
    } else {
        old.spec_allowed_to_delegate()
    }
    &&& new.spec_object_identifier() == old.spec_object_identifier()
    &&& new.spec_aces() == old.spec_aces()
    &&& new.spec_contained_by() == old.spec_contained_by()
    &&& new.spec_child_objects() == old.spec_child_objects()
    &&& new.spec_links() == old.spec_links()
}

/// This function replaces FQDN by SID in users' SPNTargets and AllowedToDelegate, or in
/// computers' AllowedToDelegate: a target that is a key of `fqdn_sid` gets the stored SID.
pub fn replace_fqdn_by_sid<T: LdapObject>(object_type: Type, vec_src: &mut Vec<T>, fqdn_sid: &StringTable) -> (r: Result<(), LinkError>)
    ensures
        r is Ok,
        final(vec_src)@.len() == old(vec_src)@.len(),
        forall|i: int|
            0 <= i < old(vec_src)@.len() ==> fqdn_resolved_one(
                object_type,
                old(vec_src)@[i],
                #[trigger] final(vec_src)@[i],
                fqdn_sid@,
            ),
{
    let mut i: usize = 0;
    while i < vec_src.len()
        invariant
            i <= vec_src@.len() == old(vec_src)@.len(),
            forall|j: int| 0 <= j < i ==> fqdn_resolved_one(object_type, old(vec_src)@[j], #[trigger] vec_src@[j], fqdn_sid@),
            forall|j: int| i <= j < vec_src@.len() ==> vec_src@[j] == old(vec_src)@[j],
        decreases vec_src@.len() - i,
    {
        match object_type {
            Type::User => {
                let spns = resolved_spns(vec_src[i].get_spntargets(), fqdn_sid);
                vec_src[i].set_spntargets(spns);
                let delegates = resolved_member_ids(vec_src[i].get_allowed_to_delegate(), fqdn_sid);
                vec_src[i].set_allowed_to_delegate(delegates);
            },
            Type::Computer => {
                let delegates = resolved_member_ids(vec_src[i].get_allowed_to_delegate(), fqdn_sid);
                vec_src[i].set_allowed_to_delegate(delegates);
            },
            _ => {},
        }
        i += 1;
    }
    Ok(())
}

fn relinked(src: &[Link], dn_sid: &StringTable) -> (r: Vec<Link>)
    ensures
        r@.len() == src@.len(),
        links_view(r@) == relink(links_view(src@), dn_sid@),
{
    let mut out: Vec<Link> = Vec::new();
    let mut j: usize = 0;
    while j < src.len()
        invariant
            j <= src@.len(),
            out@.len() == j,
            links_view(out@) == relink(links_view(src@), dn_sid@).take(j as int),
        decreases src@.len() - j,
    {
        let l = &src[j];
        let guid = match dn_sid.find_containing(l.guid.as_str()) {
            Some(g) => g.clone(),
            None => l.guid.clone(),
        };
        out.push(Link { is_enforced: l.is_enforced, guid });
        proof {
            assert(links_view(src@)[j as int] == src@[j as int]@);
            assert(links_view(out@) =~= relink(links_view(src@), dn_sid@).take(j + 1));
        }
        j += 1;
    }
    proof {
        assert(links_view(out@) =~= relink(links_view(src@), dn_sid@));
    }
    out
}

/// One object of `replace_guid_gplink`: its links are rewritten, nothing else changes.
pub open spec fn relinked_one<T: LdapObject>(old: T, new: T, dn_sid: Entries) -> bool {
    &&& new.spec_fixed() == old.spec_fixed()
    &&& new.spec_links() == relink(old.spec_links(), dn_sid)
    &&& new.spec_object_identifier() == old.spec_object_identifier()
    &&& new.spec_aces() == old.spec_aces()
    &&& new.spec_contained_by() == old.spec_contained_by()
    &&& new.spec_child_objects() == old.spec_child_objects()
    &&& new.spec_spntargets() == old.spec_spntargets()
    &&& new.spec_allowed_to_delegate() == old.spec_allowed_to_delegate()
}

/// This function checks the GUID of all gPLinks and replaces each with the identifier of the
/// first DN of `dn_sid` that contains it.
pub fn replace_guid_gplink<T: LdapObject>(vec_replaced: &mut Vec<T>, dn_sid: &StringTable) -> (r: Result<(), LinkError>)
    ensures
        r is Ok,
        final(vec_replaced)@.len() == old(vec_replaced)@.len(),
        forall|i: int|
            0 <= i < old(vec_replaced)@.len() ==> relinked_one(
                old(vec_replaced)@[i],
                #[trigger] final(vec_replaced)@[i],
                dn_sid@,
            ),
{
    let mut i: usize = 0;
    while i < vec_replaced.len()
        invariant
            i <= vec_replaced@.len() == old(vec_replaced)@.len(),
            forall|j: int| 0 <= j < i ==> relinked_one(old(vec_replaced)@[j], #[trigger] vec_replaced@[j], dn_sid@),
            forall|j: int| i <= j < vec_replaced@.len() ==> vec_replaced@[j] == old(vec_replaced)@[j],
        decreases vec_replaced@.len() - i,
    {
        if vec_replaced[i].get_links().len() > 0 {
            let links = relinked(vec_replaced[i].get_links(), dn_sid);
            vec_replaced[i].set_links(links);
        } else {
            assert(relink(vec_replaced@[i as int].spec_links(), dn_sid@) =~= vec_replaced@[i as int].spec_links());
        }
        i += 1;
    }
    Ok(())
}

/// One group of `replace_sid_members`: its members are resolved, nothing else changes.
pub open spec fn members_resolved_one(
    old: Group,
    new: Group,
    dn_sid: Entries,
    sid_type: Entries,
    trusts: Seq<Trust>,
) -> bool {
    &&& members_view(new.members@) == resolve_members(members_view(old.members@), dn_sid, sid_type, trusts)
    &&& same_but_members(old, new)
}

/// `new` differs from `old` in its members at most.
pub open spec fn same_but_members(old: Group, new: Group) -> bool {
    new == Group { members: new.members, ..old }
}

/// This function replaces the DNs of group members by SIDs, typed from `sid_type`; a DN that
/// `dn_sid` does not hold is taken for a principal of a trusted domain.
pub fn replace_sid_members(
    vec_groups: &mut Vec<Group>,
    dn_sid: &StringTable,
    sid_type: &StringTable,
    vec_trusts: &Vec<Trust>,
) -> (r: Result<(), LinkError>)
    ensures
        r is Ok,
        final(vec_groups)@.len() == old(vec_groups)@.len(),
        forall|i: int|
            0 <= i < old(vec_groups)@.len() ==> members_resolved_one(
                old(vec_groups)@[i],
                #[trigger] final(vec_groups)@[i],
                dn_sid@,
                sid_type@,
                vec_trusts@,
            ),
{
    let mut i: usize = 0;
    while i < vec_groups.len()
        invariant
            i <= vec_groups@.len() == old(vec_groups)@.len(),
            forall|j: int| 0 <= j < i ==> members_resolved_one(old(vec_groups)@[j], #[trigger] vec_groups@[j], dn_sid@, sid_type@, vec_trusts@),
            forall|j: int| i <= j < vec_groups@.len() ==> vec_groups@[j] == old(vec_groups)@[j],
        decreases vec_groups@.len() - i,
    {
        let mut out: Vec<Member> = Vec::new();
        let mut k: usize = 0;
        let ghost src = members_view(vec_groups@[i as int].members@);
        let ghost want = resolve_members(src, dn_sid@, sid_type@, vec_trusts@);
        while k < vec_groups[i].members.len()
            invariant
                i < vec_groups@.len() == old(vec_groups)@.len(),
                forall|j: int| 0 <= j < i ==> members_resolved_one(old(vec_groups)@[j], #[trigger] vec_groups@[j], dn_sid@, sid_type@, vec_trusts@),
                forall|j: int| i <= j < vec_groups@.len() ==> vec_groups@[j] == old(vec_groups)@[j],
                src == members_view(vec_groups@[i as int].members@),
                want == resolve_members(src, dn_sid@, sid_type@, vec_trusts@),
                k <= src.len(),
                out@.len() == k,
                members_view(out@) == want.take(k as int),
            decreases src.len() - k,
        {
            let m = &vec_groups[i].members[k];
            assert(src[k as int] == m@);
            let resolved = match dn_sid.get(m.object_identifier.as_str()) {
                Some(sid) => Member {
                    object_identifier: sid.clone(),
                    object_type: type_or(sid_type, sid.as_str(), "Group"),
                },
                None => {
                    match sid_maker_from_another_domain(vec_trusts, &m.object_identifier) {
                        Ok(s) => Member { object_identifier: s, object_type: "Group".to_owned() },
                        Err(e) => {
                            return Err(e);
                        },
                    }
                },
            };
            out.push(resolved);
            proof {
                assert(members_view(out@) =~= want.take(k + 1));
            }
            k += 1;
        }
        proof {
            assert(members_view(out@) =~= want);
        }
        vec_groups[i].members = out;
        i += 1;
    }
    Ok(())
}

} // verus!
