use rusthound::objects::Trust;
use rusthound::sid::{
    domain_to_dc, find_sid, first_dc_component, get_domain_part, get_id_from_objectidentifier,
    sid_maker_from_another_domain,
};

fn trust(name: &str, sid: &str) -> Trust {
    Trust {
        target_domain_sid: sid.to_string(),
        target_domain_name: name.to_string(),
        ..Default::default()
    }
}

#[test]
fn rid_of_english_and_french_names() {
    assert_eq!(get_id_from_objectidentifier("CN=DOMAIN ADMINS,CN=USERS,DC=CORP"), "-512");
    assert_eq!(get_id_from_objectidentifier("CN=UTILISATEURS DU DOMAINE,CN=USERS,DC=CORP"), "-513");
    assert_eq!(get_id_from_objectidentifier("CN=CONTR\u{d4}LEURS DE DOMAINE,DC=CORP"), "-516");
    assert_eq!(get_id_from_objectidentifier("CN=ADMINISTRATEURS DE L'ENTREPRISE,DC=CORP"), "-519");
    assert_eq!(get_id_from_objectidentifier("CN=SCHEMA ADMINS,DC=CORP"), "-518");
}

#[test]
fn rid_defaults_to_sentinel() {
    assert_eq!(get_id_from_objectidentifier("CN=ALICE,CN=USERS,DC=CORP"), "NULL_ID1");
}

#[test]
fn domain_name_to_dn() {
    assert_eq!(domain_to_dc("CORP.EXAMPLE"), "DC=CORP,DC=EXAMPLE");
    assert_eq!(domain_to_dc("LOCAL"), "DC=LOCAL");
    assert_eq!(first_dc_component("CORP.EXAMPLE"), "DC=CORP");
}

#[test]
fn foreign_principal_via_trust() {
    let trusts = vec![trust("CORP.EXAMPLE", "S-1-5-21-999-888-777")];
    let dn = "CN=DOMAIN ADMINS,CN=USERS,DC=CORP,DC=EXAMPLE".to_string();
    assert_eq!(sid_maker_from_another_domain(&trusts, &dn).unwrap(), "S-1-5-21-999-888-777-512");
}

#[test]
fn foreign_principal_given_by_sid() {
    let trusts = vec![trust("OTHER.EXAMPLE", "S-1-5-21-1-2-3")];
    let dn = "CN=S-1-5-21-444-555-666-1105,CN=FOREIGNSECURITYPRINCIPALS,DC=ESSOS,DC=LOCAL".to_string();
    assert_eq!(sid_maker_from_another_domain(&trusts, &dn).unwrap(), "S-1-5-21-444-555-666-1105");
}

#[test]
fn foreign_principal_left_as_is() {
    let trusts: Vec<Trust> = Vec::new();
    let dn = "CN=BOB,CN=USERS,DC=ELSEWHERE".to_string();
    assert_eq!(sid_maker_from_another_domain(&trusts, &dn).unwrap(), dn);
}

#[test]
fn sid_pattern_finds_and_honours_anchor() {
    let anywhere = "S-[0-9]+-[0-9]+-[0-9]+(?:-[0-9]+)+";
    let leading = "^S-[0-9]+-[0-9]+-[0-9]+(?:-[0-9]+)+";
    assert_eq!(find_sid(anywhere, "CN=S-1-5-21-9-8,DC=X").unwrap(), Some("S-1-5-21-9-8".to_string()));
    assert_eq!(find_sid(leading, "CN=S-1-5-21-9-8,DC=X").unwrap(), None);
    assert_eq!(find_sid(leading, "S-1-5-21-111-222-333-1000").unwrap(), Some("S-1-5-21-111-222-333-1000".to_string()));
    assert_eq!(find_sid(anywhere, "S-1-5").unwrap(), None);
}

#[test]
fn invalid_pattern_is_reported() {
    assert_eq!(find_sid("S-(", "S-1-5-21-1-2").unwrap_err(), rusthound::sid::LinkError::InvalidPattern);
}

#[test]
fn domain_part_drops_the_rid() {
    assert_eq!(get_domain_part("S-1-5-21-111-222-333-1000"), "S-1-5-21-111-222-333");
    assert_eq!(get_domain_part("NODASH"), "");
}
