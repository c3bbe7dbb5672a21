use talon_control::keys::{ResourceKey, ResourceList, ResourceParent};
use talon_control::kv::d1::{
    cell_bytes, cell_string, d1_compare_and_swap_request, d1_get_request,
    d1_list_entries_page_request, d1_list_keys_page_request, d1_list_keys_request,
    d1_set_request, d1_swap_succeeded, key_from_row, D1Cell, D1Error, D1Mode, D1Param,
};

fn key() -> ResourceKey {
    ResourceKey {
        namespace: "default".to_string(),
        parent_path: "Agent/demo".to_string(),
        kind: "Session".to_string(),
        name: "s1".to_string(),
    }
}

fn texts(params: &[D1Param]) -> Vec<String> {
    params
        .iter()
        .map(|p| match p {
            D1Param::Null => "null".to_string(),
            D1Param::Text { value } => format!("text:{value}"),
            D1Param::Integer { value } => format!("int:{value}"),
            D1Param::Bytes { value_base64 } => format!("bytes:{value_base64}"),
        })
        .collect()
}

fn list(kind: Option<&str>) -> ResourceList {
    ResourceList {
        parent: ResourceParent { namespace: "default".to_string(), parent_path: "Agent/demo".to_string() },
        kind: kind.map(str::to_string),
    }
}

#[test]
fn set_uses_generic_d1_execute_contract() {
    let request = d1_set_request(&key(), b"hello");
    assert_eq!(request.mode, D1Mode::Run);
    assert!(request.sql.contains("INSERT INTO \"talon_kv_store\""));
    assert_eq!(
        texts(&request.params),
        vec!["text:default", "text:Agent/demo", "text:Session", "text:s1", "bytes:aGVsbG8="]
    );
}

#[test]
fn d1_requests_name_keys_and_values() {
    let get = d1_get_request(&key());
    assert_eq!(get.mode, D1Mode::First);
    assert_eq!(texts(&get.params).len(), 4);
    let cas = d1_compare_and_swap_request(&key(), Some(b"old"), b"new");
    assert!(cas.sql.starts_with("UPDATE"));
    assert_eq!(texts(&cas.params)[4..], ["bytes:bmV3".to_string(), "bytes:b2xk".to_string()]);
    let create = d1_compare_and_swap_request(&key(), None, b"new");
    assert!(create.sql.contains("DO NOTHING"));
    assert_eq!(create.params.len(), 5);
    assert!(d1_swap_succeeded(Some(1)));
    assert!(!d1_swap_succeeded(Some(0)));
    assert!(!d1_swap_succeeded(None));
    let all = d1_list_keys_request(&list(Some("Session")));
    assert_eq!(all.mode, D1Mode::All);
    assert_eq!(texts(&all.params), vec!["text:default", "text:Agent/demo", "text:Session"]);
}

#[test]
fn d1_pages_need_a_kind_and_a_size() {
    assert!(d1_list_keys_page_request(&list(None), None, 0).unwrap().is_none());
    assert!(matches!(d1_list_keys_page_request(&list(None), None, 5), Err(D1Error::KeysPageNeedsKind)));
    assert_eq!(
        d1_list_entries_page_request(&list(None), None, 5).unwrap_err().message(),
        "d1 list_entries_page requires a resource kind"
    );
    let page = d1_list_keys_page_request(&list(Some("Session")), Some("s9"), 10).unwrap().unwrap();
    assert!(page.sql.contains("LIMIT ?5"));
    assert_eq!(
        texts(&page.params),
        vec!["text:default", "text:Agent/demo", "text:Session", "text:s9", "int:10"]
    );
    let page = d1_list_entries_page_request(&list(Some("Session")), None, 1).unwrap().unwrap();
    assert_eq!(texts(&page.params)[3], "null");
}

#[test]
fn d1_rows_read_as_keys_and_values() {
    let row = vec![
        ("namespace".to_string(), D1Cell::Text { value: "default".to_string() }),
        ("parent_path".to_string(), D1Cell::Text { value: "Agent/demo".to_string() }),
        ("kind".to_string(), D1Cell::Text { value: "Session".to_string() }),
        ("name".to_string(), D1Cell::Number { text: "7".to_string() }),
        ("value".to_string(), D1Cell::Bytes { value_base64: "aGVsbG8=".to_string() }),
        ("flag".to_string(), D1Cell::Bool { value: true }),
        ("nothing".to_string(), D1Cell::Null),
        ("raw".to_string(), D1Cell::Text { value: "hé".to_string() }),
        ("broken".to_string(), D1Cell::Bytes { value_base64: "!!".to_string() }),
    ];
    let k = key_from_row(&row).unwrap();
    assert_eq!(k.name, "7");
    assert_eq!(cell_bytes(&row, "value").unwrap(), b"hello".to_vec());
    assert_eq!(cell_bytes(&row, "raw").unwrap(), "hé".as_bytes().to_vec());
    assert_eq!(cell_string(&row, "flag").unwrap(), "true");
    assert_eq!(cell_string(&row, "nothing").unwrap_err().message(), "Cloudflare D1 column nothing was null");
    assert_eq!(cell_string(&row, "value").unwrap_err().message(), "Cloudflare D1 column value was bytes");
    assert_eq!(cell_bytes(&row, "flag").unwrap_err().message(), "Cloudflare D1 column flag was not bytes");
    assert_eq!(cell_bytes(&row, "gone").unwrap_err().message(), "Cloudflare D1 row missing column gone");
    assert!(matches!(cell_bytes(&row, "broken"), Err(D1Error::BadBase64 { .. })));
}
