use talon_control::ns::ancestry;

#[test]
fn ancestry_walks_namespace_tree() {
    assert_eq!(ancestry("conic:wks:13"), vec!["conic:wks:13", "conic:wks", "conic"]);
    assert_eq!(ancestry("conic"), vec!["conic"]);
    assert!(ancestry("").is_empty());
}

#[test]
fn ancestry_trims_surrounding_whitespace() {
    assert_eq!(ancestry("  acme:team "), vec!["acme:team", "acme"]);
}
