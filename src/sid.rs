//! Security identifiers: recognising SIDs in text, well-known relative identifiers, and
//! principals of trusted domains.

use vstd::prelude::*;
use crate::objects::{Domain, Trust};
use crate::text::{
    before, chars_of, first_index, find_char, is_infix, lemma_first_index,
    str_contains, string_of,
};

verus! {

/// Errors surfaced by the link-resolution passes.
#[derive(Debug, Clone, PartialEq, Eq)]
pub enum LinkError {
    /// A SID pattern could not be compiled.
    InvalidPattern,
}

#[verifier::external_type_specification]
#[verifier::external_body]
pub struct ExRegexError(regex::Error);

/// The text of the leftmost-first match of the regular expression `pattern` in `hay`.
pub uninterp spec fn regex_first_match(pattern: Seq<char>, hay: Seq<char>) -> Option<Seq<char>>;

/// Whether `regex::Regex::new` compiles `pattern`: it is a valid regular expression within
/// the default size limit.
pub uninterp spec fn regex_compiles(pattern: Seq<char>) -> bool;

/// Relies on `regex::Regex::new`, which compiles `pattern` unless it is invalid or over the
/// default size limit (so the short, valid SID pattern compiles), and on `regex::Regex::find`
/// with `Match::as_str`: the text of the leftmost-first match, a substring of `hay`.
#[verifier::external_body]
fn first_match(pattern: &str, hay: &str) -> (r: Result<Option<String>, regex::Error>)
    ensures
        r is Ok <==> regex_compiles(pattern@),
        pattern@ == sid_pattern() ==> r is Ok,
        r matches Ok(Some(m)) ==> regex_first_match(pattern@, hay@) == Some(m@) && is_infix(
            m@,
            hay@,
        ),
        r matches Ok(None) ==> regex_first_match(pattern@, hay@) is None,
{
    let re = regex::Regex::new(pattern)?;
    Ok(re.find(hay).map(|m| m.as_str().to_string()))
}

/// A SID anywhere in a string: `S-` followed by at least four dash-separated numbers.
pub open spec fn sid_pattern() -> Seq<char> {
    "S-[0-9]+-[0-9]+-[0-9]+(?:-[0-9]+)+"@
}

/// The SID found by `pattern` in `hay`, or the error of a pattern that does not compile.
pub fn find_sid(pattern: &str, hay: &str) -> (r: Result<Option<String>, LinkError>)
    ensures
        r is Ok <==> regex_compiles(pattern@),
        pattern@ == sid_pattern() ==> r is Ok,
        r matches Ok(Some(m)) ==> regex_first_match(pattern@, hay@) == Some(m@),
        r matches Ok(None) ==> regex_first_match(pattern@, hay@) is None,
{
    match first_match(pattern, hay) {
        Ok(m) => Ok(m),
        Err(_) => Err(LinkError::InvalidPattern),
    }
}

/// Position just past the last `c` in `s`; 0 when `c` does not occur.
pub open spec fn end_of_last(s: Seq<char>, c: char) -> int
    decreases s.len(),
{
    if s.len() == 0 {
        0
    } else if s.last() == c {
        s.len() - 1
    } else {
        end_of_last(s.drop_last(), c)
    }
}

/// The domain part of a SID: the SID without its last component, the relative identifier.
pub open spec fn domain_part(sid: Seq<char>) -> Seq<char> {
    sid.take(end_of_last(sid, '-'))
}

proof fn lemma_end_of_last(s: Seq<char>, c: char, i: int)
    requires
        0 <= i <= s.len(),
        forall|j: int| i <= j < s.len() ==> s[j] != c,
        i > 0 ==> s[i - 1] == c,
    ensures
        end_of_last(s, c) == if i > 0 { i - 1 } else { 0 },
    decreases s.len(),
{
    if s.len() > 0 && i < s.len() {
        let t = s.drop_last();
        assert(s.last() == s[s.len() - 1]);
        if i > 0 {
            assert(t[i - 1] == s[i - 1]);
        }
        assert forall|j: int| i <= j < t.len() implies t[j] != c by {
            assert(t[j] == s[j]);
        }
        lemma_end_of_last(t, c, i);
    }
}

/// The domain SID of an account SID: everything before its last `-`.
pub fn get_domain_part(sid: &str) -> (r: String)
    ensures
        r@ == domain_part(sid@),
{
    let v = chars_of(sid);
    let mut i: usize = v.len();
    while i > 0 && v[i - 1] != '-'
        invariant
            i <= v@.len(),
            forall|j: int| i <= j < v@.len() ==> v@[j] != '-',
        decreases i,
    {
        i -= 1;
    }
    proof {
        lemma_end_of_last(v@, '-', i as int);
    }
    let end = if i > 0 {
        i - 1
    } else {
        0
    };
    string_of(&v, 0, end)
}

/// Well-known group names, in English and French, with their relative identifiers.
pub open spec fn rid_name(k: int) -> Seq<char> {
    if k == 0 {
        "DOMAIN ADMINS"@
    } else if k == 1 {
        "ADMINISTRATEURS DU DOMAINE"@
    } else if k == 2 {
        "DOMAIN USERS"@
    } else if k == 3 {
        "UTILISATEURS DU DOMAINE"@
    } else if k == 4 {
        "DOMAIN GUESTS"@
    } else if k == 5 {
        "INVITES DE DOMAINE"@
    } else if k == 6 {
        "DOMAIN COMPUTERS"@
    } else if k == 7 {
        "ORDINATEURS DE DOMAINE"@
    } else if k == 8 {
        "DOMAIN CONTROLLERS"@
    } else if k == 9 {
        "CONTR\u{d4}LEURS DE DOMAINE"@
    } else if k == 10 {
        "CERT PUBLISHERS"@
    } else if k == 11 {
        "EDITEURS DE CERTIFICATS"@
    } else if k == 12 {
        "SCHEMA ADMINS"@
    } else if k == 13 {
        "ADMINISTRATEURS DU SCHEMA"@
    } else if k == 14 {
        "ENTERPRISE ADMINS"@
    } else {
        "ADMINISTRATEURS DE L'ENTREPRISE"@
    }
}

pub open spec fn rid_value(k: int) -> Seq<char> {
    if k < 2 {
        "-512"@
    } else if k < 4 {
        "-513"@
    } else if k < 6 {
        "-514"@
    } else if k < 8 {
        "-515"@
    } else if k < 10 {
        "-516"@
    } else if k < 12 {
        "-517"@
    } else if k < 14 {
        "-518"@
    } else {
        "-519"@
    }
}

pub const RID_NAMES: usize = 16;

/// The relative identifier of the first table name (from position `k` on) that occurs in
/// `dn`; `NULL_ID1` when none does.
pub open spec fn rid_from(dn: Seq<char>, k: int) -> Seq<char>
    decreases 16 - k,
{
    if k >= 16 {
        "NULL_ID1"@
    } else if is_infix(rid_name(k), dn) {
        rid_value(k)
    } else {
        rid_from(dn, k + 1)
    }
}

/// The relative identifier that a well-known group name in `dn` stands for.
pub open spec fn rid_for(dn: Seq<char>) -> Seq<char> {
    rid_from(dn, 0)
}

/// Get the relative identifier (`-512`, ...) of a well-known group from its DN; `NULL_ID1`
/// when no well-known name occurs in it.
pub fn get_id_from_objectidentifier(object_identifier: &str) -> (r: String)
    ensures
        r@ == rid_for(object_identifier@),
{
    let names = vec![
        "DOMAIN ADMINS",
        "ADMINISTRATEURS DU DOMAINE",
        "DOMAIN USERS",
        "UTILISATEURS DU DOMAINE",
        "DOMAIN GUESTS",
        "INVITES DE DOMAINE",
        "DOMAIN COMPUTERS",
        "ORDINATEURS DE DOMAINE",
        "DOMAIN CONTROLLERS",
        "CONTR\u{d4}LEURS DE DOMAINE",
        "CERT PUBLISHERS",
        "EDITEURS DE CERTIFICATS",
        "SCHEMA ADMINS",
        "ADMINISTRATEURS DU SCHEMA",
        "ENTERPRISE ADMINS",
        "ADMINISTRATEURS DE L'ENTREPRISE",
    ];
    let rids = vec!["-512", "-512", "-513", "-513", "-514", "-514", "-515", "-515", "-516", "-516", "-517", "-517", "-518", "-518", "-519", "-519"];
    let mut k: usize = 0;
    while k < RID_NAMES
        invariant
            k <= 16,
            names@.len() == 16,
            rids@.len() == 16,
            forall|j: int| 0 <= j < 16 ==> (#[trigger] names@[j])@ == rid_name(j),
            forall|j: int| 0 <= j < 16 ==> (#[trigger] rids@[j])@ == rid_value(j),
            rid_from(object_identifier@, k as int) == rid_for(object_identifier@),
        decreases 16 - k,
    {
        if str_contains(object_identifier, names[k]) {
            return rids[k].to_owned();
        }
        k += 1;
    }
    "NULL_ID1".to_owned()
}

/// The first DC component of a domain name: `CORP.EXAMPLE` gives `DC=CORP`.
pub open spec fn first_dc(domain: Seq<char>) -> Seq<char> {
    "DC="@ + before(domain, '.')
}

/// The DN form of the labels `s`, once the first `DC=` is written: each `.` becomes `,DC=`.
pub open spec fn dc_tail(s: Seq<char>) -> Seq<char>
    decreases s.len(),
{
    if s.len() == 0 {
        Seq::empty()
    } else {
        dc_tail(s.drop_last()) + if s.last() == '.' {
            ",DC="@
        } else {
            seq![s.last()]
        }
    }
}

/// The DN form of a domain name: `CORP.EXAMPLE` gives `DC=CORP,DC=EXAMPLE`.
pub open spec fn dc_form(domain: Seq<char>) -> Seq<char> {
    "DC="@ + dc_tail(domain)
}

/// Turns a domain name into its DN form: `CORP.EXAMPLE` gives `DC=CORP,DC=EXAMPLE`.
pub fn domain_to_dc(domain: &str) -> (r: String)
    ensures
        r@ == dc_form(domain@),
{
    let v = chars_of(domain);
    let mut out = "DC=".to_owned();
    let mut i: usize = 0;
    while i < v.len()
        invariant
            i <= v@.len(),
            out@ == "DC="@ + dc_tail(v@.take(i as int)),
        decreases v@.len() - i,
    {
        assert(v@.take(i + 1).drop_last() =~= v@.take(i as int));
        if v[i] == '.' {
            out.push(',');
            out.push('D');
            out.push('C');
            out.push('=');
            proof {
                reveal_strlit(",DC=");
                assert(out@ =~= "DC="@ + dc_tail(v@.take(i + 1)));
            }
        } else {
            out.push(v[i]);
            proof {
                assert(out@ =~= "DC="@ + dc_tail(v@.take(i + 1)));
            }
        }
        i += 1;
    }
    assert(v@.take(v@.len() as int) =~= v@);
    out
}

/// Builds the first DC component of a domain name: `CORP.EXAMPLE` gives `DC=CORP`.
pub fn first_dc_component(domain: &str) -> (r: String)
    ensures
        r@ == first_dc(domain@),
{
    let v = chars_of(domain);
    let dot = find_char(&v, '.', 0);
    assert(v@.skip(0) =~= v@);
    let mut out = "DC=".to_owned();
    let label = string_of(&v, 0, dot);
    out.append(label.as_str());
    out
}

pub open spec fn trust_covers(dn: Seq<char>) -> spec_fn(Trust) -> bool {
    |t: Trust| is_infix(first_dc(t.target_domain_name@), dn)
}

/// The identifier of a principal that did not resolve in this domain: built from the SID of
/// the first trusted domain whose first DC component occurs in `dn` and the relative
/// identifier of the well-known name in `dn`; else the SID written in a `CN=S-...` DN; else
/// `dn` itself.
pub open spec fn foreign_sid(trusts: Seq<Trust>, dn: Seq<char>) -> Seq<char> {
    let i = first_index(trusts, trust_covers(dn));
    if i < trusts.len() {
        trusts[i].target_domain_sid@ + rid_for(dn)
    } else if is_infix("CN=S-"@, dn) && regex_first_match(sid_pattern(), dn) is Some {
        regex_first_match(sid_pattern(), dn)->0
    } else {
        dn
    }
}

/// Make the SID of a principal from another domain, present in the trusts.
pub fn sid_maker_from_another_domain(vec_trusts: &Vec<Trust>, object_identifier: &String) -> (r:
    Result<String, LinkError>)
    ensures
        r matches Ok(s) && s@ == foreign_sid(vec_trusts@, object_identifier@),
{
    let mut i: usize = 0;
    while i < vec_trusts.len()
        invariant
            i <= vec_trusts@.len(),
            forall|j: int|
                0 <= j < i ==> !trust_covers(object_identifier@)(#[trigger] vec_trusts@[j]),
        decreases vec_trusts@.len() - i,
    {
        let dc = first_dc_component(vec_trusts[i].target_domain_name.as_str());
        if str_contains(object_identifier.as_str(), dc.as_str()) {
            proof {
                lemma_first_index(vec_trusts@, trust_covers(object_identifier@), i as int);
            }
            let mut sid = vec_trusts[i].target_domain_sid.clone();
            let rid = get_id_from_objectidentifier(object_identifier.as_str());
            sid.append(rid.as_str());
            return Ok(sid);
        }
        i += 1;
    }
    proof {
        lemma_first_index(vec_trusts@, trust_covers(object_identifier@), i as int);
    }
    if str_contains(object_identifier.as_str(), "CN=S-") {
        match find_sid("S-[0-9]+-[0-9]+-[0-9]+(?:-[0-9]+)+", object_identifier.as_str()) {
            Ok(Some(m)) => {
                return Ok(m);
            },
            _ => {},
        }
    }
    Ok(object_identifier.clone())
}

/// A stub domain for a trusted domain: its SID, its name, the DN form of its name, marked
/// high-value, and nothing else.
pub open spec fn is_trust_stub(d: Domain, t: Trust) -> bool {
    &&& d.object_identifier@ == t.target_domain_sid@
    &&& d.properties.name@ == t.target_domain_name@
    &&& d.properties.domain@ == t.target_domain_name@
    &&& d.properties.distinguishedname@ == dc_form(t.target_domain_name@)
    &&& d.properties.highvalue
    &&& d.properties.domainsid@.len() == 0
    &&& d.properties.description is None
    &&& d.aces@.len() == 0
    &&& d.contained_by is None
    &&& d.child_objects@.len() == 0
    &&& d.links@.len() == 0
    &&& d.gpo_changes.affected_computers@.len() == 0
    &&& !d.is_deleted
    &&& !d.is_acl_protected
}

/// The trusts hold concrete SIDs: the first one's SID is not a placeholder holding `SID`.
pub open spec fn trusts_resolved(trusts: Seq<Trust>) -> bool {
    trusts.len() > 0 && !is_infix("SID"@, trusts[0].target_domain_sid@)
}

fn trust_stub(t: &Trust) -> (d: Domain)
    ensures
        is_trust_stub(d, *t),
        d.trusts@.len() == 0,
{
    let mut d = Domain::new();
    d.object_identifier = t.target_domain_sid.clone();
    d.properties.name = t.target_domain_name.clone();
    d.properties.domain = t.target_domain_name.clone();
    d.properties.distinguishedname = domain_to_dc(t.target_domain_name.as_str());
    d.properties.highvalue = true;
    d
}

fn copy_trust(t: &Trust) -> (r: Trust)
    ensures
        r == *t,
{
    Trust {
        target_domain_sid: t.target_domain_sid.clone(),
        target_domain_name: t.target_domain_name.clone(),
        trust_direction: t.trust_direction.clone(),
        trust_type: t.trust_type.clone(),
        is_transitive: t.is_transitive,
        sid_filtering_enabled: t.sid_filtering_enabled,
    }
}

/// This function pushes a stub domain for each trusted domain and records the trusts on the
/// first domain, once the trusts hold concrete SIDs.
pub fn add_trustdomain(vec_domains: &mut Vec<Domain>, vec_trusts: &mut Vec<Trust>) -> (r: Result<(), LinkError>)
    ensures
        r is Ok,
        final(vec_trusts)@ == old(vec_trusts)@,
        !trusts_resolved(old(vec_trusts)@) ==> final(vec_domains)@ == old(vec_domains)@,
        trusts_resolved(old(vec_trusts)@) ==> {
            let n = old(vec_domains)@.len();
            let t = old(vec_trusts)@;
            &&& final(vec_domains)@.len() == n + t.len()
            &&& final(vec_domains)@[0].trusts@ == t
            &&& forall|i: int| 1 <= i < n ==> #[trigger] final(vec_domains)@[i] == old(vec_domains)@[i]
            &&& n > 0 ==> final(vec_domains)@[0] == (Domain { trusts: final(vec_domains)@[0].trusts, ..old(vec_domains)@[0] })
            &&& forall|k: int| 0 <= k < t.len() ==> is_trust_stub(#[trigger] final(vec_domains)@[n + k], t[k])
            &&& forall|k: int| 0 < n + k < n + t.len() && 0 <= k ==> (#[trigger] final(vec_domains)@[n + k]).trusts@.len() == 0
        },
{
    if vec_trusts.len() == 0 || str_contains(vec_trusts[0].target_domain_sid.as_str(), "SID") {
        return Ok(());
    }
    let ghost n = vec_domains@.len();
    let mut trusts: Vec<Trust> = Vec::new();
    let mut k: usize = 0;
    while k < vec_trusts.len()
        invariant
            k <= vec_trusts@.len(),
            vec_domains@.len() == n + k,
            trusts@ == vec_trusts@.take(k as int),
            forall|i: int| 0 <= i < n ==> #[trigger] vec_domains@[i] == old(vec_domains)@[i],
            forall|j: int| 0 <= j < k ==> is_trust_stub(#[trigger] vec_domains@[n + j], vec_trusts@[j]),
            forall|j: int| 0 <= j < k ==> (#[trigger] vec_domains@[n + j]).trusts@.len() == 0,
        decreases vec_trusts@.len() - k,
    {
        trusts.push(copy_trust(&vec_trusts[k]));
        vec_domains.push(trust_stub(&vec_trusts[k]));
        proof {
            assert(trusts@ =~= vec_trusts@.take(k + 1));
        }
        k += 1;
    }
    proof {
        assert(trusts@ =~= vec_trusts@);
    }
    vec_domains[0].trusts = trusts;
    Ok(())
}

} // verus!
