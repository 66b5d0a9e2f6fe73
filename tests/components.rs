use backoffice::registry::{file_attachments_registry_item, markdown_registry_item};
use backoffice::component::{
    CodecError, ComponentDataMarker, ComponentInfoMarker, FileAttachmentsComponent,
    MarkdownComponent,
};
use backoffice::registry::{registry, registry_item, ComponentKind, ComponentMethods, Registry};
use backoffice::status::CmsPageStatus;

#[test]
fn markdown_round_trip() {
    let value = MarkdownComponent {
        content: "Hello".to_string(),
        parse_html: "<p>Hello</p>".to_string(),
    };
    let bytes = value.clone().into_data();
    let back = MarkdownComponent::from_data(&bytes).unwrap();
    assert_eq!(back.content, "Hello");
    assert_eq!(back.parse_html, "<p>Hello</p>");
}

#[test]
fn markdown_encodes_as_array_of_two_strings() {
    let value = MarkdownComponent {
        content: "Hello".to_string(),
        parse_html: "<p>Hello</p>".to_string(),
    };
    let bytes = value.into_data();
    let mut expected = vec![0x92u8, 0xa5];
    expected.extend_from_slice(b"Hello");
    expected.push(0xac);
    expected.extend_from_slice(b"<p>Hello</p>");
    assert_eq!(bytes, expected);
}

#[test]
fn markdown_decode_of_foreign_bytes_is_desync() {
    let r = MarkdownComponent::from_data(&vec![0xc0u8]);
    assert!(matches!(r, Err(CodecError::Desync)));
    let r = MarkdownComponent::from_data(&Vec::new());
    assert!(matches!(r, Err(CodecError::Desync)));
}

#[test]
fn markdown_round_trip_of_empty_texts() {
    let value = MarkdownComponent { content: String::new(), parse_html: String::new() };
    let bytes = value.into_data();
    let back = MarkdownComponent::from_data(&bytes).unwrap();
    assert_eq!(back.content, "");
    assert_eq!(back.parse_html, "");
}

#[test]
fn file_attachments_payload_is_empty() {
    let bytes = FileAttachmentsComponent.into_data();
    assert!(bytes.is_empty());
    assert!(FileAttachmentsComponent::from_data(&vec![1u8, 2, 3]).is_ok());
    assert!(FileAttachmentsComponent::from_data(&bytes).is_ok());
}

#[test]
fn component_infos() {
    let m = MarkdownComponent::component_info();
    assert_eq!(m.kind, "Markdown");
    assert_eq!(m.kind_uuid, "3191d0cc-0f3f-4a7c-b81a-dcfee22e524b");
    let f = FileAttachmentsComponent::component_info();
    assert_eq!(f.kind, "File Attachments");
    assert_eq!(f.kind_uuid, "8a810f99-772c-4f52-91ed-72a4560cf6d0");
}

#[test]
fn lookup_is_deterministic() {
    let reg = registry();
    for key in [
        "3191d0cc-0f3f-4a7c-b81a-dcfee22e524b".to_string(),
        "8a810f99-772c-4f52-91ed-72a4560cf6d0".to_string(),
    ] {
        let a = reg.lookup(&key).unwrap();
        let b = reg.lookup(&key).unwrap();
        assert_eq!(a.kind, b.kind);
        assert_eq!(a.info.kind, b.info.kind);
        assert_eq!(a.info.kind_uuid, key);
        assert_eq!(b.info.kind_uuid, key);
    }
    assert_eq!(
        reg.lookup(&"3191d0cc-0f3f-4a7c-b81a-dcfee22e524b".to_string()).unwrap().kind,
        ComponentKind::Markdown
    );
}

#[test]
fn lookup_of_unknown_kind_is_none() {
    let reg = registry();
    assert!(reg.lookup(&"no-such-kind".to_string()).is_none());
    assert!(Registry::new().lookup(&"3191d0cc-0f3f-4a7c-b81a-dcfee22e524b".to_string()).is_none());
}

#[test]
fn register_replaces_an_entry_of_the_same_kind() {
    let mut reg = Registry::new();
    let mut info = MarkdownComponent::component_info();
    reg.register(ComponentMethods { info: info.clone(), kind: ComponentKind::Markdown });
    info.kind = "Text".to_string();
    reg.register(ComponentMethods { info, kind: ComponentKind::FileAttachments });
    let kinds = reg.list_kinds();
    assert_eq!(kinds.len(), 1);
    assert_eq!(kinds[0].kind, "Text");
    let found = reg.lookup(&"3191d0cc-0f3f-4a7c-b81a-dcfee22e524b".to_string()).unwrap();
    assert_eq!(found.kind, ComponentKind::FileAttachments);
}

#[test]
fn kinds_are_listed_by_display_name() {
    let items = registry_item();
    assert_eq!(items.len(), 2);
    assert_eq!(items[0].kind, "File Attachments");
    assert_eq!(items[0].kind_uuid, "8a810f99-772c-4f52-91ed-72a4560cf6d0");
    assert_eq!(items[1].kind, "Markdown");
    assert_eq!(items[1].kind_uuid, "3191d0cc-0f3f-4a7c-b81a-dcfee22e524b");
    let again = registry_item();
    assert_eq!(again.len(), 2);
    assert_eq!(again[0].kind_uuid, items[0].kind_uuid);
}

#[test]
fn list_kinds_sorts_regardless_of_registration_order() {
    let mut reg = Registry::new();
    let names = ["zeta", "Alpha", "beta", "Beta"];
    for (i, name) in names.iter().enumerate() {
        let info = backoffice::component::CmsComponentInfo {
            kind: name.to_string(),
            kind_uuid: format!("uuid-{}", i),
        };
        reg.register(ComponentMethods { info, kind: ComponentKind::Markdown });
    }
    let kinds: Vec<String> = reg.list_kinds().into_iter().map(|i| i.kind).collect();
    assert_eq!(kinds, vec!["Alpha", "Beta", "beta", "zeta"]);
    let mut reg = Registry::new();
    for (i, name) in ["Äpfel", "Zebra", "Ab", "A"].iter().enumerate() {
        let info = backoffice::component::CmsComponentInfo {
            kind: name.to_string(),
            kind_uuid: format!("id-{}", i),
        };
        reg.register(ComponentMethods { info, kind: ComponentKind::FileAttachments });
    }
    let kinds: Vec<String> = reg.list_kinds().into_iter().map(|i| i.kind).collect();
    assert_eq!(kinds, vec!["A", "Ab", "Zebra", "Äpfel"]);
}

#[test]
fn statuses() {
    assert_eq!(CmsPageStatus::all_statuses(), vec![CmsPageStatus::Draft, CmsPageStatus::Published]);
    assert_eq!(CmsPageStatus::Draft.as_stringed(), "draft");
    assert_eq!(CmsPageStatus::Published.as_stringed(), "published");
    assert_eq!(CmsPageStatus::try_from_text(&"draft".to_string()), Some(CmsPageStatus::Draft));
    assert_eq!(
        CmsPageStatus::try_from_text(&"published".to_string()),
        Some(CmsPageStatus::Published)
    );
    assert_eq!(CmsPageStatus::try_from_text(&"Draft".to_string()), None);
    assert_eq!(CmsPageStatus::default(), CmsPageStatus::Draft);
}

#[test]
fn registry_items_of_each_kind() {
    let m = markdown_registry_item();
    assert_eq!(m.kind, ComponentKind::Markdown);
    assert_eq!(m.info.kind, "Markdown");
    let f = file_attachments_registry_item();
    assert_eq!(f.kind, ComponentKind::FileAttachments);
    assert_eq!(f.info.kind_uuid, "8a810f99-772c-4f52-91ed-72a4560cf6d0");
}
