use rusthound::text::{
    get_cn_object_name_from_full_distinguishedname, get_contained_by_name_from_distinguishedname,
    get_name_from_full_distinguishedname,
};

#[test]
pub fn test_get_name_from_full_distinguishedname() {
    // Example:
    // dn_object = CN=G0H4N,CN=USERS,DC=ESSOS,DC=LOCAL
    let dn_object = "CN=G0H4N,CN=USERS,DC=ESSOS,DC=LOCAL".to_string();
    let cn_name = get_name_from_full_distinguishedname(&dn_object);
    println!("dn_object: {:?}", dn_object);
    println!("cn_name: {:?}", cn_name);
    assert_eq!(cn_name, "G0H4N".to_string());
}

#[test]
pub fn test_get_cn_object_name_from_full_distinguishedname() {
    // Example:
    // dn_object = CN=G0H4N,CN=USERS,DC=ESSOS,DC=LOCAL
    let dn_object = "CN=G0H4N,CN=USERS,DC=ESSOS,DC=LOCAL".to_string();
    let cn_name = get_cn_object_name_from_full_distinguishedname(&dn_object);
    println!("dn_object: {:?}", dn_object);
    println!("cn_name: {:?}", cn_name);
    assert_eq!(cn_name, "CN=G0H4N".to_string());
}

#[test]
pub fn test_get_contained_by_name_from_name() {
    // Example:
    // dn_object = CN=G0H4N,CN=USERS,DC=ESSOS,DC=LOCAL
    let dn_object = "CN=G0H4N,CN=USERS,DC=ESSOS,DC=LOCAL".to_string();
    let cn_name = "CN=G0H4N".to_string();
    let contained_by_dn = get_contained_by_name_from_distinguishedname(&cn_name, &dn_object);
    println!("dn_object: {:?}", dn_object);
    println!("contained_by_dn: {:?}", contained_by_dn);
    assert_eq!(contained_by_dn, "CN=USERS,DC=ESSOS,DC=LOCAL".to_string());
}

#[test]
fn name_stops_at_the_next_equals_sign() {
    let dn = "CN=A=B,DC=X".to_string();
    assert_eq!(get_name_from_full_distinguishedname(&dn), "A");
}

#[test]
fn single_component_dn_is_its_own_cn() {
    let dn = "DC=LOCAL".to_string();
    assert_eq!(get_cn_object_name_from_full_distinguishedname(&dn), "DC=LOCAL");
    assert_eq!(get_name_from_full_distinguishedname(&dn), "LOCAL");
}

#[test]
fn contained_by_of_cn_prefix_strips_only_the_prefix() {
    // The parent keeps a second occurrence of the same component.
    let dn = "CN=A,CN=A,DC=X".to_string();
    let cn = get_cn_object_name_from_full_distinguishedname(&dn);
    assert_eq!(get_contained_by_name_from_distinguishedname(&cn, &dn), "CN=A,DC=X");
}

#[test]
fn non_ascii_names_are_kept_whole() {
    let dn = "CN=CONTR\u{d4}LEURS DE DOMAINE,CN=USERS,DC=CORP".to_string();
    assert_eq!(get_name_from_full_distinguishedname(&dn), "CONTR\u{d4}LEURS DE DOMAINE");
    let cn = get_cn_object_name_from_full_distinguishedname(&dn);
    assert_eq!(get_contained_by_name_from_distinguishedname(&cn, &dn), "CN=USERS,DC=CORP");
}
