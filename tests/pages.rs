use backoffice::dispatch::CmsRequestError;
use backoffice::form::{AddPageForm, AmendPageForm};
use backoffice::page_flow::{cms_amend_page_get, cms_amend_page_post, cms_create_page_post, cms_list_page};
use backoffice::permission::{Role, UserPointer};
use backoffice::repository::{CmsRepository, ComponentRow, FileAttachmentRow, PageRow};
use backoffice::status::CmsPageStatus;

fn user(id: i64) -> UserPointer {
    UserPointer { id, role: Role::User }
}

fn page_row(id: i64, user_id: i64) -> PageRow {
    PageRow {
        id,
        user_id,
        title: format!("page {}", id),
        summary: String::new(),
        status: CmsPageStatus::Draft,
        added: 0,
        updated: None,
    }
}

#[test]
fn listing_marks_pages_the_user_may_amend() {
    let mut repo = CmsRepository::new();
    let form = AddPageForm { title: "Mine".to_string() };
    assert_eq!(cms_create_page_post(&mut repo, user(1), &form, 10).unwrap().0, 1);
    let form = AddPageForm { title: "Theirs".to_string() };
    assert_eq!(cms_create_page_post(&mut repo, user(2), &form, 11).unwrap().0, 2);
    let list = cms_list_page(&repo, user(1)).unwrap();
    assert_eq!(list.len(), 2);
    assert!(list[0].editable);
    assert!(!list[1].editable);
    assert_eq!(list[1].page.title, "Theirs");
    let list = cms_list_page(&repo, UserPointer { id: 5, role: Role::Admin }).unwrap();
    assert!(list.iter().all(|e| e.editable));
}

#[test]
fn amend_page_flow() {
    let mut repo = CmsRepository::new();
    cms_create_page_post(&mut repo, user(1), &AddPageForm { title: "T".to_string() }, 1).unwrap();
    let (page, components) = cms_amend_page_get(&repo, user(1), 1).unwrap();
    assert_eq!(page.title, "T");
    assert!(components.is_empty());
    assert!(matches!(cms_amend_page_get(&repo, user(2), 1), Err(CmsRequestError::Forbidden)));
    assert!(matches!(cms_amend_page_get(&repo, user(1), 2), Err(CmsRequestError::NotFound)));
    let form = AmendPageForm {
        title: "T2".to_string(),
        summary: "S".to_string(),
        status: CmsPageStatus::Published,
    };
    assert!(matches!(
        cms_amend_page_post(&mut repo, user(2), 1, &form, 2),
        Err(CmsRequestError::Forbidden)
    ));
    assert_eq!(cms_amend_page_get(&repo, user(1), 1).unwrap().0.title, "T");
    cms_amend_page_post(&mut repo, user(1), 1, &form, 2).unwrap();
    let (page, _) = cms_amend_page_get(&repo, user(1), 1).unwrap();
    assert_eq!(page.title, "T2");
    assert_eq!(page.summary, "S");
    assert_eq!(page.status, CmsPageStatus::Published);
}

#[test]
fn rows_read_back_continue_their_ids() {
    let pages = vec![page_row(3, 1), page_row(8, 1)];
    let components = vec![ComponentRow {
        id: 4,
        page_id: 8,
        kind_uuid: "k".to_string(),
        label: "l".to_string(),
        position: 2,
        raw_data: vec![1, 2],
    }];
    let attachments: Vec<FileAttachmentRow> = Vec::new();
    let mut repo = CmsRepository::from_rows(pages, components, attachments).unwrap();
    let id = cms_create_page_post(&mut repo, user(1), &AddPageForm { title: "N".to_string() }, 0)
        .unwrap();
    assert_eq!(id.0, 9);
    assert_eq!(repo.pages().len(), 3);
    assert_eq!(repo.components()[0].raw_data, vec![1, 2]);
    assert!(repo.attachments().is_empty());
}

#[test]
fn rows_out_of_order_are_refused() {
    let pages = vec![page_row(8, 1), page_row(3, 1)];
    assert!(CmsRepository::from_rows(pages, Vec::new(), Vec::new()).is_err());
    let pages = vec![page_row(0, 1)];
    assert!(CmsRepository::from_rows(pages, Vec::new(), Vec::new()).is_err());
    let pages = vec![page_row(i64::MAX, 1)];
    assert!(CmsRepository::from_rows(pages, Vec::new(), Vec::new()).is_err());
}
