use nuclino_rs::{ModifyItem, NewPageBuilder, PageKind, Uuid};

#[test]
fn new_page_builder() {
    let parent = Uuid::parse_str("e9e648b3-8ce3-410d-8ef8-51b46c63cdaf").unwrap(); // a collection
    let page = NewPageBuilder::item()
        .title("I am entitled")
        .content("This is *markdown*")
        .parent(&parent)
        .index(5)
        .build();
    assert_eq!(page.title, Some("I am entitled".to_string()));
    assert_eq!(page.content, Some("This is *markdown*".to_string()));
    assert_eq!(page.parent_id, Some(parent));
    assert!(page.workspace_id.is_none());
}

#[test]
fn item_body_round_trips_and_omits_parent() {
    let w = Uuid::parse_str("127a8c4a-b3c6-4a42-8fef-b6c521e6c8cf").unwrap();
    let page = NewPageBuilder::item()
        .title("Say \"hi\"")
        .content("line one\nline two")
        .workspace(&w)
        .build();
    let text = page.to_json_text();
    let back: serde_json::Value = serde_json::from_str(&text).expect("valid JSON");
    assert_eq!(back["title"], "Say \"hi\"");
    assert_eq!(back["content"], "line one\nline two");
    assert_eq!(back["workspaceId"], "127a8c4a-b3c6-4a42-8fef-b6c521e6c8cf");
    assert_eq!(back["object"], "item");
    let obj = back.as_object().unwrap();
    assert!(!obj.contains_key("parentId"));
    assert!(!obj.contains_key("index"));
    assert_eq!(obj.len(), 4);
}

#[test]
fn body_text_is_compact_json() {
    let p = Uuid::from_u128(1);
    let page = NewPageBuilder::collection().title("C").parent(&p).index(12).build();
    assert_eq!(
        page.to_json_text(),
        r#"{"parentId":"00000000-0000-0000-0000-000000000001","title":"C","index":12,"object":"collection"}"#
    );
}

#[test]
fn collection_drops_content() {
    let page = NewPageBuilder::collection().title("List").content("ignored").build();
    assert!(page.content.is_none());
    assert_eq!(page.object, PageKind::Collection);
    let item = NewPageBuilder::item().content("kept").build();
    assert_eq!(item.content, Some("kept".to_string()));
}

#[test]
fn workspace_and_parent_exclude_each_other() {
    let w = Uuid::from_u128(7);
    let p = Uuid::from_u128(9);
    let page = NewPageBuilder::item().parent(&p).workspace(&w).build();
    assert_eq!(page.workspace_id, Some(w));
    assert!(page.parent_id.is_none());
    let page = NewPageBuilder::item().workspace(&w).parent(&p).build();
    assert_eq!(page.parent_id, Some(p));
    assert!(page.workspace_id.is_none());
    let page = NewPageBuilder::item().build();
    assert!(page.parent_id.is_none() && page.workspace_id.is_none());
}

#[test]
fn modify_item_omits_absent_members() {
    let m = ModifyItem { title: Some("New".to_string()), content: None };
    assert_eq!(m.to_json_text(), r#"{"title":"New"}"#);
    let m = ModifyItem { title: None, content: Some("a\tb".to_string()) };
    assert_eq!(m.to_json_text(), r#"{"content":"a\tb"}"#);
    let m = ModifyItem { title: None, content: None };
    assert_eq!(m.to_json_text(), "{}");
}

#[test]
fn page_kind_defaults_to_item() {
    assert_eq!(PageKind::default(), PageKind::Item);
}
