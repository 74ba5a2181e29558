//! Containment edges: `ContainedBy`, `ChildObjects`, and the computers on which the
//! policies of an OU or a domain apply.

use vstd::prelude::*;
use crate::checker::type_or;
use crate::objects::{Domain, GPOChange, LdapObject, Member, MemberView, Ou, members_view};
use crate::sid::LinkError;
use crate::table::{Entries, StringTable, lookup, lookup_or, reverse_lookup};
use crate::text::{
    before, before_char, collect, get_name_from_full_distinguishedname, has_char, has_name,
    has_rdn_value, is_infix, lemma_collect_keeps, lemma_collect_source, lemma_collect_step,
    lemma_first_index_bounds, parent_dn, parent_of, rdn_value, same_text, second_name_of,
    second_rdn_value, str_contains, to_upper, upper_of,
};

verus! {

/// The `ContainedBy` edge of the object `id` (uppercase) whose current edge is `cur`: the
/// object stored under the parent of its DN, unless the object is a domain, or its DN has no
/// comma, or the parent is unknown.
pub open spec fn container_of(
    id: Seq<char>,
    cur: Option<MemberView>,
    dn_sid: Entries,
    sid_type: Entries,
) -> Option<MemberView> {
    match reverse_lookup(dn_sid, id) {
        None => cur,
        Some(dn) => if lookup_or(sid_type, id, "Group"@) == "Domain"@ || !has_char(dn, ',') {
            cur
        } else {
            match lookup(dn_sid, parent_dn(dn)) {
                Some(p) => Some(
                    MemberView { object_identifier: p, object_type: lookup_or(sid_type, p, "Group"@) },
                ),
                None => cur,
            }
        },
    }
}

/// One object of `add_contained_by_for`: its `ContainedBy` is set, nothing else changes.
pub open spec fn contained_by_set_one<T: LdapObject>(old: T, new: T, dn_sid: Entries, sid_type: Entries) -> bool {
    &&& new.spec_fixed() == old.spec_fixed()
    &&& new.spec_contained_by() == container_of(
        upper_of(old.spec_object_identifier()),
        old.spec_contained_by(),
        dn_sid,
        sid_type,
    )
    &&& new.spec_object_identifier() == old.spec_object_identifier()
    &&& new.spec_aces() == old.spec_aces()
    &&& new.spec_child_objects() == old.spec_child_objects()
    &&& new.spec_links() == old.spec_links()
    &&& new.spec_spntargets() == old.spec_spntargets()
    &&& new.spec_allowed_to_delegate() == old.spec_allowed_to_delegate()
}

/// This function sets the `ContainedBy` edge of every object that is not a domain: the object
/// stored under the parent of its DN, typed from `sid_type` (`Group` by default).
pub fn add_contained_by_for<T: LdapObject>(
    vec_replaced: &mut Vec<T>,
    dn_sid: &StringTable,
    sid_type: &StringTable,
) -> (r: Result<(), LinkError>)
    ensures
        r is Ok,
        final(vec_replaced)@.len() == old(vec_replaced)@.len(),
        forall|i: int|
            0 <= i < old(vec_replaced)@.len() ==> contained_by_set_one(
                old(vec_replaced)@[i],
                #[trigger] final(vec_replaced)@[i],
                dn_sid@,
                sid_type@,
            ),
{
    let mut i: usize = 0;
    while i < vec_replaced.len()
        invariant
            i <= vec_replaced@.len() == old(vec_replaced)@.len(),
            forall|j: int| 0 <= j < i ==> contained_by_set_one(old(vec_replaced)@[j], #[trigger] vec_replaced@[j], dn_sid@, sid_type@),
            forall|j: int| i <= j < vec_replaced@.len() ==> vec_replaced@[j] == old(vec_replaced)@[j],
        decreases vec_replaced@.len() - i,
    {
        let sid = to_upper(vec_replaced[i].get_object_identifier().as_str());
        let found = match dn_sid.find_key(sid.as_str()) {
            None => None,
            Some(dn) => {
                let otype = type_or(sid_type, sid.as_str(), "Group");
                if same_text(otype.as_str(), "Domain") {
                    None
                } else {
                    match parent_of(dn) {
                        None => None,
                        Some(parent) => match dn_sid.get(parent.as_str()) {
                            None => None,
                            Some(psid) => Some(
                                Member {
                                    object_identifier: psid.clone(),
                                    object_type: type_or(sid_type, psid.as_str(), "Group"),
                                },
                            ),
                        },
                    }
                }
            },
        };
        match found {
            Some(m) => {
                vec_replaced[i].set_contained_by(Some(m));
            },
            None => {},
        }
        i += 1;
    }
    Ok(())
}

/// Every identifier stored in `dn_sid` has a type in `sid_type`.
pub open spec fn identifiers_typed(dn_sid: Entries, sid_type: Entries) -> bool {
    forall|i: int| 0 <= i < dn_sid.len() ==> (lookup(sid_type, #[trigger] dn_sid[i].1) is Some)
}

/// The edge is unset, or it reaches an identifier that has a type.
pub open spec fn edge_typed(m: Option<MemberView>, sid_type: Entries) -> bool {
    m matches Some(e) ==> lookup(sid_type, e.object_identifier) is Some
}

/// After `ContainedBy` is set from tables in which every stored identifier has a type, every
/// `ContainedBy` edge that is set reaches an identifier of `sid_type`, provided the edges that
/// were set before did.
pub proof fn lemma_containers_are_typed<T: LdapObject>(
    old: Seq<T>,
    new: Seq<T>,
    dn_sid: Entries,
    sid_type: Entries,
)
    requires
        new.len() == old.len(),
        forall|i: int| 0 <= i < old.len() ==> contained_by_set_one(old[i], #[trigger] new[i], dn_sid, sid_type),
        identifiers_typed(dn_sid, sid_type),
        forall|i: int| 0 <= i < old.len() ==> edge_typed((#[trigger] old[i]).spec_contained_by(), sid_type),
    ensures
        forall|i: int| 0 <= i < new.len() ==> edge_typed((#[trigger] new[i]).spec_contained_by(), sid_type),
{
    assert forall|i: int| 0 <= i < new.len() implies edge_typed((#[trigger] new[i]).spec_contained_by(), sid_type) by {
        assert(contained_by_set_one(old[i], new[i], dn_sid, sid_type));
        assert(edge_typed(old[i].spec_contained_by(), sid_type));
        match reverse_lookup(dn_sid, upper_of(old[i].spec_object_identifier())) {
            None => {},
            Some(dn) => {
                lemma_first_index_bounds(dn_sid, crate::table::key_is(parent_dn(dn)));
            },
        }
    }
}

/// `k` is one DN component followed by `dn`, and its second component has the value `name`.
pub open spec fn is_direct_child(k: Seq<char>, dn: Seq<char>, name: Seq<char>) -> bool {
    has_char(k, ',') && parent_dn(k) == dn && second_rdn_value(k) == Some(name)
}

/// The child test on an uppercase DN `key`: it sits directly below `dn`, and the value of its
/// second component is `name`.
pub fn direct_child(key: &String, dn: &String, name: &String) -> (r: bool)
    ensures
        r == is_direct_child(key@, dn@, name@),
{
    let below = match parent_of(key) {
        Some(p) => same_text(p.as_str(), dn.as_str()),
        None => false,
    };
    let named = match second_name_of(key) {
        Some(v) => same_text(v.as_str(), name.as_str()),
        None => false,
    };
    below && named
}

/// A direct child of the object with DN `dn` and name `name`: an entry whose uppercase DN is
/// one component followed by `dn`, and whose second component has the value `name`.
pub open spec fn child_of(dn: Seq<char>, name: Seq<char>, sid_type: Entries) -> spec_fn(
    (Seq<char>, Seq<char>),
) -> Option<MemberView> {
    |e: (Seq<char>, Seq<char>)|
        {
            let k = upper_of(e.0);
            if is_direct_child(k, dn, name) && e.1.len() > 0 {
                Some(
                    MemberView {
                        object_identifier: e.1,
                        object_type: lookup_or(sid_type, e.1, "NULL"@),
                    },
                )
            } else {
                None
            }
        }
}

/// The `ChildObjects` of the object `id` whose current list is `cur`: the direct children of
/// the DN stored for its uppercase identifier, or `cur` when there is no such DN with a name.
pub open spec fn children_of(
    id: Seq<char>,
    cur: Seq<MemberView>,
    dn_sid: Entries,
    sid_type: Entries,
) -> Seq<MemberView> {
    match reverse_lookup(dn_sid, upper_of(id)) {
        Some(dn) => if has_rdn_value(dn) {
            collect(dn_sid, child_of(dn, rdn_value(dn), sid_type))
        } else {
            cur
        },
        None => cur,
    }
}

fn direct_children(dn: &String, name: &String, dn_sid: &StringTable, sid_type: &StringTable) -> (r: Vec<Member>)
    ensures
        members_view(r@) == collect(dn_sid@, child_of(dn@, name@, sid_type@)),
{
    let mut out: Vec<Member> = Vec::new();
    let mut i: usize = 0;
    while i < dn_sid.len()
        invariant
            i <= dn_sid@.len(),
            members_view(out@) == collect(dn_sid@.take(i as int), child_of(dn@, name@, sid_type@)),
        decreases dn_sid@.len() - i,
    {
        proof {
            lemma_collect_step(dn_sid@, child_of(dn@, name@, sid_type@), i as int);
        }
        let key = to_upper(dn_sid.key_at(i).as_str());
        let sid = dn_sid.value_at(i);
        let ghost before_push = out@;
        if direct_child(&key, dn, name) && !sid.as_str().is_empty() {
            out.push(
                Member {
                    object_identifier: sid.clone(),
                    object_type: type_or(sid_type, sid.as_str(), "NULL"),
                },
            );
            proof {
                assert(members_view(out@) =~= members_view(before_push) + seq![out@.last()@]);
            }
        } else {
            proof {
                assert(members_view(out@) =~= members_view(before_push) + Seq::<MemberView>::empty());
            }
        }
        i += 1;
    }
    proof {
        assert(dn_sid@.take(i as int) =~= dn_sid@);
    }
    out
}

/// One object of `add_childobjects_members`: its `ChildObjects` are set, nothing else changes.
pub open spec fn children_set_one<T: LdapObject>(old: T, new: T, dn_sid: Entries, sid_type: Entries) -> bool {
    &&& new.spec_fixed() == old.spec_fixed()
    &&& new.spec_child_objects() == children_of(
        old.spec_object_identifier(),
        old.spec_child_objects(),
        dn_sid,
        sid_type,
    )
    &&& new.spec_object_identifier() == old.spec_object_identifier()
    &&& new.spec_aces() == old.spec_aces()
    &&& new.spec_contained_by() == old.spec_contained_by()
    &&& new.spec_links() == old.spec_links()
    &&& new.spec_spntargets() == old.spec_spntargets()
    &&& new.spec_allowed_to_delegate() == old.spec_allowed_to_delegate()
}

/// This function sets the `ChildObjects` of every object: the entries of `dn_sid` that sit
/// directly below the object's DN.
pub fn add_childobjects_members<T: LdapObject>(
    vec_replaced: &mut Vec<T>,
    dn_sid: &StringTable,
    sid_type: &StringTable,
) -> (r: Result<(), LinkError>)
    requires
        T::has_child_objects(),
    ensures
        r is Ok,
        final(vec_replaced)@.len() == old(vec_replaced)@.len(),
        forall|i: int|
            0 <= i < old(vec_replaced)@.len() ==> children_set_one(
                old(vec_replaced)@[i],
                #[trigger] final(vec_replaced)@[i],
                dn_sid@,
                sid_type@,
            ),
{
    let mut i: usize = 0;
    while i < vec_replaced.len()
        invariant
            T::has_child_objects(),
            i <= vec_replaced@.len() == old(vec_replaced)@.len(),
            forall|j: int| 0 <= j < i ==> children_set_one(old(vec_replaced)@[j], #[trigger] vec_replaced@[j], dn_sid@, sid_type@),
            forall|j: int| i <= j < vec_replaced@.len() ==> vec_replaced@[j] == old(vec_replaced)@[j],
        decreases vec_replaced@.len() - i,
    {
        let sid = to_upper(vec_replaced[i].get_object_identifier().as_str());
        let found = match dn_sid.find_key(sid.as_str()) {
            None => None,
            Some(dn) => {
                if has_name(dn) {
                    let name = get_name_from_full_distinguishedname(dn);
                    Some(direct_children(dn, &name, dn_sid, sid_type))
                } else {
                    None
                }
            },
        };
        match found {
            Some(children) => {
                vec_replaced[i].set_child_objects(children);
            },
            None => {},
        }
        i += 1;
    }
    Ok(())
}

/// The type recorded for the OU (or domain) with DN `dn`: `NULL` when unknown.
pub open spec fn ou_kind(dn: Seq<char>, dn_sid: Entries, sid_type: Entries) -> Seq<char> {
    lookup_or(sid_type, lookup_or(dn_sid, dn, "NULL"@), "NULL"@)
}

/// The name that children of an OU carry in their second DN component: the OU's name up to
/// its `@`; a domain keeps its whole name.
pub open spec fn ou_match_name(name: Seq<char>, is_domain: bool) -> Seq<char> {
    if is_domain {
        name
    } else {
        before(name, '@')
    }
}

/// An entry under the OU with DN `dn` and match name `name`. Under an OU: its uppercase DN is
/// one component followed by `dn`, and its second component has the value `name`. Under a
/// domain: its second component's value contains the first label of the domain name. With
/// `computers_only`, only the computers under an OU.
pub open spec fn ou_child(
    dn: Seq<char>,
    name: Seq<char>,
    is_domain: bool,
    computers_only: bool,
    sid_type: Entries,
) -> spec_fn((Seq<char>, Seq<char>)) -> Option<MemberView> {
    |e: (Seq<char>, Seq<char>)|
        {
            let k = upper_of(e.0);
            let first = match second_rdn_value(k) {
                Some(v) => v,
                None => Seq::empty(),
            };
            let t = lookup_or(sid_type, e.1, "NULL"@);
            let hit = if is_domain {
                is_infix(before(name, '.'), first)
            } else {
                is_direct_child(k, dn, name)
            };
            if hit && (!computers_only || (!is_domain && t == "Computer"@)) {
                Some(MemberView { object_identifier: e.1, object_type: t })
            } else {
                None
            }
        }
}

/// One OU of `add_childobjects_members_for_ou`: its `ChildObjects` are set and, for an OU
/// typed `OU`, the computers among them become its affected computers.
pub open spec fn ou_children_set_one(old: Ou, new: Ou, dn_sid: Entries, sid_type: Entries) -> bool {
    let dn = upper_of(old.properties.distinguishedname@);
    let kind = ou_kind(dn, dn_sid, sid_type);
    let is_domain = kind == "Domain"@;
    let name = ou_match_name(upper_of(old.properties.name@), is_domain);
    &&& members_view(new.child_objects@) == collect(dn_sid, ou_child(dn, name, is_domain, false, sid_type))
    &&& kind == "OU"@ ==> members_view(new.gpo_changes.affected_computers@) == collect(
        dn_sid,
        ou_child(dn, name, is_domain, true, sid_type),
    )
    &&& kind != "OU"@ ==> new.gpo_changes == old.gpo_changes
    &&& new == (Ou { child_objects: new.child_objects, gpo_changes: new.gpo_changes, ..old })
}

fn ou_children(
    dn: &String,
    name: &String,
    is_domain: bool,
    dn_sid: &StringTable,
    sid_type: &StringTable,
) -> (r: (Vec<Member>, Vec<Member>))
    ensures
        members_view(r.0@) == collect(dn_sid@, ou_child(dn@, name@, is_domain, false, sid_type@)),
        members_view(r.1@) == collect(dn_sid@, ou_child(dn@, name@, is_domain, true, sid_type@)),
{
    let ghost all = ou_child(dn@, name@, is_domain, false, sid_type@);
    let ghost computers = ou_child(dn@, name@, is_domain, true, sid_type@);
    let label = before_char(name.as_str(), '.');
    let mut direct: Vec<Member> = Vec::new();
    let mut affected: Vec<Member> = Vec::new();
    let mut i: usize = 0;
    while i < dn_sid.len()
        invariant
            i <= dn_sid@.len(),
            label@ == before(name@, '.'),
            all == ou_child(dn@, name@, is_domain, false, sid_type@),
            computers == ou_child(dn@, name@, is_domain, true, sid_type@),
            members_view(direct@) == collect(dn_sid@.take(i as int), all),
            members_view(affected@) == collect(dn_sid@.take(i as int), computers),
        decreases dn_sid@.len() - i,
    {
        proof {
            lemma_collect_step(dn_sid@, all, i as int);
            lemma_collect_step(dn_sid@, computers, i as int);
        }
        let key = to_upper(dn_sid.key_at(i).as_str());
        let sid = dn_sid.value_at(i);
        let first = match second_name_of(&key) {
            Some(v) => v,
            None => String::new(),
        };
        let t = type_or(sid_type, sid.as_str(), "NULL");
        let hit = if is_domain {
            str_contains(first.as_str(), label.as_str())
        } else {
            direct_child(&key, dn, name)
        };
        let ghost d0 = direct@;
        let ghost a0 = affected@;
        if hit {
            let is_computer = !is_domain && same_text(t.as_str(), "Computer");
            if is_computer {
                affected.push(Member { object_identifier: sid.clone(), object_type: t.clone() });
            }
            direct.push(Member { object_identifier: sid.clone(), object_type: t });
            proof {
                assert(members_view(direct@) =~= members_view(d0) + seq![direct@.last()@]);
                if is_computer {
                    assert(members_view(affected@) =~= members_view(a0) + seq![affected@.last()@]);
                } else {
                    assert(members_view(affected@) =~= members_view(a0) + Seq::<MemberView>::empty());
                }
            }
        } else {
            proof {
                assert(members_view(direct@) =~= members_view(d0) + Seq::<MemberView>::empty());
                assert(members_view(affected@) =~= members_view(a0) + Seq::<MemberView>::empty());
            }
        }
        i += 1;
    }
    proof {
        assert(dn_sid@.take(i as int) =~= dn_sid@);
    }
    (direct, affected)
}

/// This function sets the `ChildObjects` of every OU from `dn_sid`; an OU typed `OU` also
/// gets the computers among them as the computers its policies apply to.
pub fn add_childobjects_members_for_ou(
    vec_replaced: &mut Vec<Ou>,
    dn_sid: &StringTable,
    sid_type: &StringTable,
) -> (r: Result<(), LinkError>)
    ensures
        r is Ok,
        final(vec_replaced)@.len() == old(vec_replaced)@.len(),
        forall|i: int|
            0 <= i < old(vec_replaced)@.len() ==> ou_children_set_one(
                old(vec_replaced)@[i],
                #[trigger] final(vec_replaced)@[i],
                dn_sid@,
                sid_type@,
            ),
{
    let mut i: usize = 0;
    while i < vec_replaced.len()
        invariant
            i <= vec_replaced@.len() == old(vec_replaced)@.len(),
            forall|j: int| 0 <= j < i ==> ou_children_set_one(old(vec_replaced)@[j], #[trigger] vec_replaced@[j], dn_sid@, sid_type@),
            forall|j: int| i <= j < vec_replaced@.len() ==> vec_replaced@[j] == old(vec_replaced)@[j],
        decreases vec_replaced@.len() - i,
    {
        let dn = to_upper(vec_replaced[i].properties.distinguishedname.as_str());
        let sid = type_or(dn_sid, dn.as_str(), "NULL");
        let kind = type_or(sid_type, sid.as_str(), "NULL");
        let is_domain = same_text(kind.as_str(), "Domain");
        let upper_name = to_upper(vec_replaced[i].properties.name.as_str());
        let name = if is_domain {
            upper_name
        } else {
            before_char(upper_name.as_str(), '@')
        };
        let (direct, affected) = ou_children(&dn, &name, is_domain, dn_sid, sid_type);
        vec_replaced[i].child_objects = direct;
        if same_text(kind.as_str(), "OU") {
            vec_replaced[i].gpo_changes = GPOChange { affected_computers: affected };
        }
        i += 1;
    }
    Ok(())
}

/// A computer whose DN sits directly below `ou_dn`.
pub open spec fn computer_below(ou_dn: Seq<char>, sid_type: Entries) -> spec_fn(
    (Seq<char>, Seq<char>),
) -> Option<MemberView> {
    |e: (Seq<char>, Seq<char>)|
        if lookup(sid_type, e.1) == Some("Computer"@) && has_char(e.0, ',') && parent_dn(e.0)
            == ou_dn {
            Some(MemberView { object_identifier: e.1, object_type: "Computer"@ })
        } else {
            None
        }
}

/// One OU of `add_affected_computers_for_ou`: when its uppercase identifier has a DN, its affected
/// computers are the computers directly below that DN; nothing else changes.
pub open spec fn ou_affected_set_one(old: Ou, new: Ou, dn_sid: Entries, sid_type: Entries) -> bool {
    match reverse_lookup(dn_sid, upper_of(old.object_identifier@)) {
        Some(ou_dn) => {
            &&& members_view(new.gpo_changes.affected_computers@) == collect(
                dn_sid,
                computer_below(ou_dn, sid_type),
            )
            &&& new == (Ou { gpo_changes: new.gpo_changes, ..old })
        },
        None => new == old,
    }
}

fn computers_below(ou_dn: &String, dn_sid: &StringTable, sid_type: &StringTable) -> (r: Vec<Member>)
    ensures
        members_view(r@) == collect(dn_sid@, computer_below(ou_dn@, sid_type@)),
{
    let ghost f = computer_below(ou_dn@, sid_type@);
    let mut out: Vec<Member> = Vec::new();
    let mut i: usize = 0;
    while i < dn_sid.len()
        invariant
            i <= dn_sid@.len(),
            f == computer_below(ou_dn@, sid_type@),
            members_view(out@) == collect(dn_sid@.take(i as int), f),
        decreases dn_sid@.len() - i,
    {
        proof {
            lemma_collect_step(dn_sid@, f, i as int);
        }
        let dn = dn_sid.key_at(i);
        let sid = dn_sid.value_at(i);
        let is_computer = match sid_type.get(sid.as_str()) {
            Some(t) => same_text(t.as_str(), "Computer"),
            None => false,
        };
        let below = is_computer && match parent_of(dn) {
            Some(p) => same_text(p.as_str(), ou_dn.as_str()),
            None => false,
        };
        let ghost o0 = out@;
        if below {
            out.push(Member { object_identifier: sid.clone(), object_type: "Computer".to_owned() });
            proof {
                assert(members_view(out@) =~= members_view(o0) + seq![out@.last()@]);
            }
        } else {
            proof {
                assert(members_view(out@) =~= members_view(o0) + Seq::<MemberView>::empty());
            }
        }
        i += 1;
    }
    proof {
        assert(dn_sid@.take(i as int) =~= dn_sid@);
    }
    out
}

/// This function sets, for each OU whose identifier has a DN in `dn_sid`, the computers its
/// policies apply to: the computers whose DN sits directly below the OU's DN.
pub fn add_affected_computers_for_ou(
    vec_ous: &mut Vec<Ou>,
    dn_sid: &StringTable,
    sid_type: &StringTable,
) -> (r: Result<(), LinkError>)
    ensures
        r is Ok,
        final(vec_ous)@.len() == old(vec_ous)@.len(),
        forall|i: int|
            0 <= i < old(vec_ous)@.len() ==> ou_affected_set_one(
                old(vec_ous)@[i],
                #[trigger] final(vec_ous)@[i],
                dn_sid@,
                sid_type@,
            ),
{
    let mut i: usize = 0;
    while i < vec_ous.len()
        invariant
            i <= vec_ous@.len() == old(vec_ous)@.len(),
            forall|j: int| 0 <= j < i ==> ou_affected_set_one(old(vec_ous)@[j], #[trigger] vec_ous@[j], dn_sid@, sid_type@),
            forall|j: int| i <= j < vec_ous@.len() ==> vec_ous@[j] == old(vec_ous)@[j],
        decreases vec_ous@.len() - i,
    {
        let sid = to_upper(vec_ous[i].object_identifier.as_str());
        let found = match dn_sid.find_key(sid.as_str()) {
            Some(ou_dn) => Some(computers_below(ou_dn, dn_sid, sid_type)),
            None => None,
        };
        match found {
            Some(computers) => {
                vec_ous[i].gpo_changes = GPOChange { affected_computers: computers };
            },
            None => {},
        }
        i += 1;
    }
    Ok(())
}

/// Every identifier typed `Computer`, as a member typed `Computer`.
pub open spec fn computer_of() -> spec_fn((Seq<char>, Seq<char>)) -> Option<MemberView> {
    |e: (Seq<char>, Seq<char>)|
        if e.1 == "Computer"@ {
            Some(MemberView { object_identifier: e.0, object_type: "Computer"@ })
        } else {
            None
        }
}

/// This function sets the computers that the policies of the first domain apply to: every
/// identifier that `sid_type` types `Computer`.
pub fn add_affected_computers(vec_domains: &mut Vec<Domain>, sid_type: &StringTable) -> (r: Result<(), LinkError>)
    ensures
        r is Ok,
        final(vec_domains)@.len() == old(vec_domains)@.len(),
        old(vec_domains)@.len() > 0 ==> members_view(final(vec_domains)@[0].gpo_changes.affected_computers@)
            == collect(sid_type@, computer_of()),
        old(vec_domains)@.len() > 0 ==> final(vec_domains)@[0] == (Domain {
            gpo_changes: final(vec_domains)@[0].gpo_changes,
            ..old(vec_domains)@[0]
        }),
        forall|i: int| 1 <= i < old(vec_domains)@.len() ==> #[trigger] final(vec_domains)@[i] == old(vec_domains)@[i],
{
    let ghost f = computer_of();
    let mut out: Vec<Member> = Vec::new();
    let mut i: usize = 0;
    while i < sid_type.len()
        invariant
            i <= sid_type@.len(),
            f == computer_of(),
            members_view(out@) == collect(sid_type@.take(i as int), f),
        decreases sid_type@.len() - i,
    {
        proof {
            lemma_collect_step(sid_type@, f, i as int);
        }
        let ghost o0 = out@;
        if same_text(sid_type.value_at(i).as_str(), "Computer") {
            out.push(Member { object_identifier: sid_type.key_at(i).clone(), object_type: "Computer".to_owned() });
            proof {
                assert(members_view(out@) =~= members_view(o0) + seq![out@.last()@]);
            }
        } else {
            proof {
                assert(members_view(out@) =~= members_view(o0) + Seq::<MemberView>::empty());
            }
        }
        i += 1;
    }
    proof {
        assert(sid_type@.take(i as int) =~= sid_type@);
    }
    if vec_domains.len() > 0 {
        vec_domains[0].gpo_changes = GPOChange { affected_computers: out };
    }
    Ok(())
}

/// The DNs of the table are already uppercase.
pub open spec fn keys_uppercase(dn_sid: Entries) -> bool {
    forall|i: int| 0 <= i < dn_sid.len() ==> upper_of(#[trigger] dn_sid[i].0) == dn_sid[i].0
}

/// Every identifier of `a` is the identifier of some member of `b`.
pub open spec fn ids_within(a: Seq<MemberView>, b: Seq<MemberView>) -> bool {
    forall|j: int| 0 <= j < a.len() ==> has_id(b, (#[trigger] a[j]).object_identifier)
}

/// Some member of `b` has the identifier `id`.
pub open spec fn has_id(b: Seq<MemberView>, id: Seq<char>) -> bool {
    exists|k: int| 0 <= k < b.len() && (#[trigger] b[k]).object_identifier == id
}

/// After the child objects of an OU are set and then its affected computers, every affected
/// computer is one of its child objects, by identifier. This holds of an OU typed `OU`, whose
/// (uppercase) name starts with the value of its (uppercase) DN's first component up to the
/// `@`, whose uppercase identifier is stored (if at all) under its uppercase DN, in a table of
/// uppercase DNs.
pub proof fn lemma_affected_computers_are_children(
    o0: Ou,
    o1: Ou,
    o2: Ou,
    dn_sid: Entries,
    sid_type: Entries,
)
    requires
        ou_children_set_one(o0, o1, dn_sid, sid_type),
        ou_affected_set_one(o1, o2, dn_sid, sid_type),
        keys_uppercase(dn_sid),
        ou_kind(upper_of(o0.properties.distinguishedname@), dn_sid, sid_type) == "OU"@,
        has_rdn_value(upper_of(o0.properties.distinguishedname@)),
        rdn_value(upper_of(o0.properties.distinguishedname@)) == before(
            upper_of(o0.properties.name@),
            '@',
        ),
        reverse_lookup(dn_sid, upper_of(o0.object_identifier@)) matches Some(d) ==> d
            == upper_of(o0.properties.distinguishedname@),
    ensures
        ids_within(
            members_view(o2.gpo_changes.affected_computers@),
            members_view(o2.child_objects@),
        ),
{
    let dn = upper_of(o0.properties.distinguishedname@);
    let name = ou_match_name(upper_of(o0.properties.name@), false);
    reveal_strlit("OU");
    reveal_strlit("Domain");
    assert("OU"@.len() != "Domain"@.len());
    let all = ou_child(dn, name, false, false, sid_type);
    let children = collect(dn_sid, all);
    assert(members_view(o2.child_objects@) == children);
    let affected = members_view(o2.gpo_changes.affected_computers@);
    let g = match reverse_lookup(dn_sid, upper_of(o0.object_identifier@)) {
        Some(d) => computer_below(d, sid_type),
        None => ou_child(dn, name, false, true, sid_type),
    };
    assert(affected == collect(dn_sid, g));
    assert forall|j: int| 0 <= j < affected.len() implies has_id(
        children,
        (#[trigger] affected[j]).object_identifier,
    ) by {
        lemma_collect_source(dn_sid, g, j);
        let i = choose|i: int| 0 <= i < dn_sid.len() && g(#[trigger] dn_sid[i]) == Some(collect(dn_sid, g)[j]);
        let e = dn_sid[i];
        assert(upper_of(e.0) == e.0);
        if reverse_lookup(dn_sid, upper_of(o0.object_identifier@)) is Some {
            assert(is_direct_child(e.0, dn, name));
        }
        assert(all(e) is Some);
        assert(all(e)->0.object_identifier == e.1);
        lemma_collect_keeps(dn_sid, all, i);
        let k = choose|k: int| 0 <= k < children.len() && children[k] == all(e)->0;
        assert(children[k].object_identifier == affected[j].object_identifier);
    }
    assert(ids_within(affected, children));
}

} // verus!
