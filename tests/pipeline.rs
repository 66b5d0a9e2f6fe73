use backoffice::dispatch::{resolve_attachment_request, resolve_update_fetch};
use backoffice::attachment_service::attachment_file_path;
use backoffice::registry::ComponentKind;
use backoffice::attachment_service::{CmsAttachmentService, CmsAttachmentServiceError};
use backoffice::data_model::ListComponentModel;
use backoffice::dispatch::{
    cms_delete_component, cms_update_position, dispatch_create, dispatch_fetch, dispatch_update,
    CmsRequestError, ComponentForm, ComponentPayload,
};
use backoffice::form::{AddPageForm, AmendPageForm, CommonLabelForm, ComponentPositionForm, MarkdownForm};
use backoffice::markdown_service::{MarkdownComponentService, MarkdownComponentServiceError};
use backoffice::page_service::{CmsPageService, CmsPageServiceError};
use backoffice::permission::{CmsPermissionCheckService, CmsPermissionCheckServiceError, Role, UserPointer};
use backoffice::query::{CreateQuery, UpdateFetchQuery};
use backoffice::registry::registry;
use backoffice::repository::{CmsRepository, CmsRepositoryError};
use backoffice::status::CmsPageStatus;
use backoffice::component::MarkdownComponent;
use backoffice::component::ComponentInfoMarker;
use backoffice::component::ComponentDataMarker;

const MARKDOWN: &str = "3191d0cc-0f3f-4a7c-b81a-dcfee22e524b";
const FILES: &str = "8a810f99-772c-4f52-91ed-72a4560cf6d0";

fn user(id: i64) -> UserPointer {
    UserPointer { id, role: Role::User }
}

fn admin(id: i64) -> UserPointer {
    UserPointer { id, role: Role::Admin }
}

fn add_page(repo: &mut CmsRepository, author: UserPointer, title: &str) -> i64 {
    CmsPageService::new(author)
        .add_page(repo, &AddPageForm { title: title.to_string() }, 1_700_000_000)
        .unwrap()
        .0
}

fn create(repo: &mut CmsRepository, author: UserPointer, kind: &str, page_id: i64) -> u64 {
    let query = CreateQuery::new(kind.to_string(), page_id as u64);
    dispatch_create(&registry(), repo, author, &query).unwrap().1.id
}

fn ids(list: &[ListComponentModel]) -> Vec<(i64, i64)> {
    list.iter().map(|c| (c.id, c.position)).collect()
}

#[test]
fn page_ids_count_up_from_one() {
    let mut repo = CmsRepository::new();
    assert_eq!(add_page(&mut repo, user(1), "A"), 1);
    assert_eq!(add_page(&mut repo, user(2), "B"), 2);
    let pages = CmsPageService::new(user(1)).list_page(&repo).unwrap();
    assert_eq!(pages.len(), 2);
    assert_eq!(pages[0].user_id, 1);
    assert_eq!(pages[1].title, "B");
    assert_eq!(pages[1].status, CmsPageStatus::Draft);
    assert_eq!(pages[1].updated, None);
    assert_eq!(pages[1].added, 1_700_000_000);
}

#[test]
fn fetch_and_amend_page() {
    let mut repo = CmsRepository::new();
    let a = user(1);
    let id = add_page(&mut repo, a, "Title");
    let service = CmsPageService::new(a);
    let page = service.fetch_page(&repo, id).unwrap();
    assert_eq!(page.title, "Title");
    assert_eq!(page.summary, "");
    assert_eq!(page.status, CmsPageStatus::Draft);
    let form = AmendPageForm {
        title: "New".to_string(),
        summary: "Sum".to_string(),
        status: CmsPageStatus::Published,
    };
    service.update_page(&mut repo, id, &form, 1_800_000_000).unwrap();
    let page = service.fetch_page(&repo, id).unwrap();
    assert_eq!(page.title, "New");
    assert_eq!(page.summary, "Sum");
    assert_eq!(page.status, CmsPageStatus::Published);
    assert_eq!(service.list_page(&repo).unwrap()[0].updated, Some(1_800_000_000));
    assert!(matches!(service.fetch_page(&repo, 99), Err(CmsPageServiceError::NotFoundError)));
}

#[test]
fn permission_by_page() {
    let mut repo = CmsRepository::new();
    let a = user(1);
    for _ in 0..6 {
        add_page(&mut repo, a, "filler");
    }
    let page = add_page(&mut repo, a, "Seven");
    assert_eq!(page, 7);
    let b = user(2);
    assert_eq!(
        CmsPermissionCheckService::new(b).check_permission_by_page_id(&repo, 7),
        Err(CmsPermissionCheckServiceError::NoPermission)
    );
    assert_eq!(CmsPermissionCheckService::new(admin(3)).check_permission_by_page_id(&repo, 7), Ok(()));
    assert_eq!(CmsPermissionCheckService::new(a).check_permission_by_page_id(&repo, 7), Ok(()));
    assert_eq!(
        CmsPermissionCheckService::new(admin(3)).check_permission_by_page_id(&repo, 8),
        Err(CmsPermissionCheckServiceError::NotFound)
    );
}

#[test]
fn permission_by_component_follows_the_page() {
    let mut repo = CmsRepository::new();
    let a = user(1);
    let page = add_page(&mut repo, a, "P");
    let c = create(&mut repo, a, MARKDOWN, page) as i64;
    assert_eq!(CmsPermissionCheckService::new(a).check_permission_by_component_id(&repo, c), Ok(()));
    assert_eq!(
        CmsPermissionCheckService::new(user(2)).check_permission_by_component_id(&repo, c),
        Err(CmsPermissionCheckServiceError::NoPermission)
    );
    assert_eq!(
        CmsPermissionCheckService::new(user(2)).check_permission_by_component_id(&repo, c + 1),
        Err(CmsPermissionCheckServiceError::NotFound)
    );
}

#[test]
fn reorder_lists_by_new_positions() {
    let mut repo = CmsRepository::new();
    let a = user(1);
    let page = add_page(&mut repo, a, "P");
    let first = create(&mut repo, a, MARKDOWN, page) as i64;
    let second = create(&mut repo, a, MARKDOWN, page) as i64;
    assert_eq!((first, second), (1, 2));
    let setup = ComponentPositionForm { mapping: vec![(1, 0), (2, 1)] };
    let list = cms_update_position(&mut repo, a, page as u64, &setup).unwrap();
    assert_eq!(ids(&list), vec![(1, 0), (2, 1)]);
    let form = ComponentPositionForm { mapping: vec![(1, 5), (2, 3)] };
    let list = cms_update_position(&mut repo, a, page as u64, &form).unwrap();
    assert_eq!(ids(&list), vec![(2, 3), (1, 5)]);
}

#[test]
fn equal_positions_break_ties_by_id() {
    let mut repo = CmsRepository::new();
    let a = user(1);
    let page = add_page(&mut repo, a, "P");
    for _ in 0..3 {
        create(&mut repo, a, FILES, page);
    }
    let form = ComponentPositionForm { mapping: vec![(3, 1), (1, 1), (2, 0)] };
    let list = cms_update_position(&mut repo, a, page as u64, &form).unwrap();
    assert_eq!(ids(&list), vec![(2, 0), (1, 1), (3, 1)]);
}

#[test]
fn reorder_leaves_other_pages_alone() {
    let mut repo = CmsRepository::new();
    let a = user(1);
    let first_page = add_page(&mut repo, a, "First");
    let second_page = add_page(&mut repo, a, "Second");
    let c1 = create(&mut repo, a, MARKDOWN, first_page) as i64;
    let c2 = create(&mut repo, a, MARKDOWN, second_page) as i64;
    let form = ComponentPositionForm { mapping: vec![(c1, 4), (c2, 9)] };
    cms_update_position(&mut repo, a, first_page as u64, &form).unwrap();
    let other = CmsPageService::new(a).list_component(&repo, second_page).unwrap();
    assert_eq!(ids(&other), vec![(c2, 0)]);
    let mine = CmsPageService::new(a).list_component(&repo, first_page).unwrap();
    assert_eq!(ids(&mine), vec![(c1, 4)]);
}

#[test]
fn reorder_needs_ownership() {
    let mut repo = CmsRepository::new();
    let page = add_page(&mut repo, user(1), "P");
    create(&mut repo, user(1), MARKDOWN, page);
    let form = ComponentPositionForm { mapping: vec![(1, 5)] };
    assert!(matches!(
        cms_update_position(&mut repo, user(2), page as u64, &form),
        Err(CmsRequestError::Forbidden)
    ));
    let list = CmsPageService::new(user(1)).list_component(&repo, page).unwrap();
    assert_eq!(ids(&list), vec![(1, 0)]);
    assert!(matches!(
        cms_update_position(&mut repo, user(1), 42, &form),
        Err(CmsRequestError::NotFound)
    ));
}

#[test]
fn cascade_delete_removes_attachments() {
    let mut repo = CmsRepository::new();
    let a = user(1);
    let page = add_page(&mut repo, a, "P");
    for _ in 0..9 {
        create(&mut repo, a, MARKDOWN, page);
    }
    let files = create(&mut repo, a, FILES, page) as i64;
    assert_eq!(files, 10);
    let service = CmsAttachmentService::new();
    for (name, path) in [("a.txt", "/cms/files/x/a.txt"), ("b.png", "/cms/files/x/b.png")] {
        service
            .add_file(&mut repo, files, name.to_string(), path.to_string(), "text/plain".to_string(), 5)
            .unwrap();
    }
    service
        .add_file(&mut repo, 3, "c.txt".to_string(), "/cms/files/x/c.txt".to_string(), "t".to_string(), 5)
        .unwrap();
    assert_eq!(service.list_file_by_component_id(&repo, 10).unwrap().len(), 2);
    let removed = cms_delete_component(&mut repo, a, 10).unwrap();
    assert_eq!(removed, vec!["/cms/files/x/a.txt".to_string(), "/cms/files/x/b.png".to_string()]);
    assert!(service.list_file_by_component_id(&repo, 10).unwrap().is_empty());
    assert_eq!(service.list_file_by_component_id(&repo, 3).unwrap().len(), 1);
    let list = CmsPageService::new(a).list_component(&repo, page).unwrap();
    assert_eq!(list.len(), 9);
    assert!(list.iter().all(|c| c.id != 10));
}

#[test]
fn cascade_delete_needs_ownership() {
    let mut repo = CmsRepository::new();
    let page = add_page(&mut repo, user(1), "P");
    let c = create(&mut repo, user(1), FILES, page);
    assert_eq!(cms_delete_component(&mut repo, user(2), c), Err(CmsRequestError::Forbidden));
    assert_eq!(cms_delete_component(&mut repo, user(1), c + 1), Err(CmsRequestError::NotFound));
    assert_eq!(CmsPageService::new(user(1)).list_component(&repo, page).unwrap().len(), 1);
}

#[test]
fn unknown_kind_on_create_is_not_found_and_stores_nothing() {
    let mut repo = CmsRepository::new();
    let a = user(1);
    let page = add_page(&mut repo, a, "P");
    let query = CreateQuery::new("00000000-0000-0000-0000-000000000000".to_string(), page as u64);
    let r = dispatch_create(&registry(), &mut repo, a, &query);
    assert!(matches!(r, Err(CmsRequestError::NotFound)));
    assert!(CmsPageService::new(a).list_component(&repo, page).unwrap().is_empty());
    assert_eq!(create(&mut repo, a, MARKDOWN, page), 1);
}

#[test]
fn create_needs_ownership_of_the_page() {
    let mut repo = CmsRepository::new();
    let page = add_page(&mut repo, user(1), "P");
    let query = CreateQuery::new(MARKDOWN.to_string(), page as u64);
    assert!(matches!(
        dispatch_create(&registry(), &mut repo, user(2), &query),
        Err(CmsRequestError::Forbidden)
    ));
    let query = CreateQuery::new(MARKDOWN.to_string(), 77);
    assert!(matches!(
        dispatch_create(&registry(), &mut repo, admin(9), &query),
        Err(CmsRequestError::NotFound)
    ));
    let query = CreateQuery::new(MARKDOWN.to_string(), page as u64);
    let (info, r) = dispatch_create(&registry(), &mut repo, admin(9), &query).unwrap();
    assert_eq!(info.kind, "Markdown");
    assert_eq!(r.kind_uuid, MARKDOWN);
    assert_eq!(r.id, 1);
}

#[test]
fn fetch_of_missing_component_is_not_found() {
    let repo = CmsRepository::new();
    let query = UpdateFetchQuery::new(MARKDOWN.to_string(), 12345);
    assert!(matches!(
        dispatch_fetch(&registry(), &repo, admin(1), &query),
        Err(CmsRequestError::NotFound)
    ));
    let service = MarkdownComponentService::new(MarkdownComponent::component_info());
    assert!(matches!(
        service.fetch_component(&repo, &query),
        Err(MarkdownComponentServiceError::NotFound)
    ));
}

#[test]
fn created_markdown_starts_with_default_text() {
    let mut repo = CmsRepository::new();
    let a = user(1);
    let page = add_page(&mut repo, a, "P");
    let id = create(&mut repo, a, MARKDOWN, page);
    let query = UpdateFetchQuery::new(MARKDOWN.to_string(), id);
    let (info, model) = dispatch_fetch(&registry(), &repo, a, &query).unwrap();
    assert_eq!(info.kind, "Markdown");
    assert_eq!(model.label, "Markdown");
    assert_eq!(model.position, 0);
    match model.raw_data {
        ComponentPayload::Markdown(m) => {
            assert_eq!(m.content, "Hello World");
            assert_eq!(m.parse_html, "Hello World");
        }
        ComponentPayload::FileAttachments(_) => panic!("wrong payload kind"),
    }
}

#[test]
fn update_then_fetch_markdown() {
    let mut repo = CmsRepository::new();
    let a = user(1);
    let page = add_page(&mut repo, a, "P");
    let id = create(&mut repo, a, MARKDOWN, page);
    let query = UpdateFetchQuery::new(MARKDOWN.to_string(), id);
    let form = ComponentForm::Markdown(MarkdownForm {
        label: "Intro".to_string(),
        markdown: "# Hi".to_string(),
    });
    let info = dispatch_update(&registry(), &mut repo, a, &query, &form).unwrap();
    assert_eq!(info.kind_uuid, MARKDOWN);
    let (_, model) = dispatch_fetch(&registry(), &repo, a, &query).unwrap();
    assert_eq!(model.label, "Intro");
    match model.raw_data {
        ComponentPayload::Markdown(m) => assert_eq!(m.content, "# Hi"),
        ComponentPayload::FileAttachments(_) => panic!("wrong payload kind"),
    }
    let list = CmsPageService::new(a).list_component(&repo, page).unwrap();
    assert_eq!(list[0].label, "Intro");
    assert_eq!(list[0].as_query().kind_uuid, MARKDOWN);
    assert_eq!(list[0].as_query().id, id);
}

#[test]
fn update_with_form_of_other_kind_is_bad_request() {
    let mut repo = CmsRepository::new();
    let a = user(1);
    let page = add_page(&mut repo, a, "P");
    let id = create(&mut repo, a, MARKDOWN, page);
    let query = UpdateFetchQuery::new(MARKDOWN.to_string(), id);
    let form = ComponentForm::FileAttachments(CommonLabelForm { label: "X".to_string() });
    assert!(matches!(
        dispatch_update(&registry(), &mut repo, a, &query, &form),
        Err(CmsRequestError::BadRequest)
    ));
    let (_, model) = dispatch_fetch(&registry(), &repo, a, &query).unwrap();
    assert_eq!(model.label, "Markdown");
}

#[test]
fn request_under_another_kind_is_not_found() {
    let mut repo = CmsRepository::new();
    let a = user(1);
    let page = add_page(&mut repo, a, "P");
    let id = create(&mut repo, a, MARKDOWN, page);
    let query = UpdateFetchQuery::new(FILES.to_string(), id);
    assert!(matches!(
        dispatch_fetch(&registry(), &repo, a, &query),
        Err(CmsRequestError::NotFound)
    ));
    let form = ComponentForm::FileAttachments(CommonLabelForm { label: "X".to_string() });
    assert!(matches!(
        dispatch_update(&registry(), &mut repo, a, &query, &form),
        Err(CmsRequestError::NotFound)
    ));
}

#[test]
fn file_attachment_component_round_trip() {
    let mut repo = CmsRepository::new();
    let a = user(1);
    let page = add_page(&mut repo, a, "P");
    let id = create(&mut repo, a, FILES, page);
    let query = UpdateFetchQuery::new(FILES.to_string(), id);
    let (info, model) = dispatch_fetch(&registry(), &repo, a, &query).unwrap();
    assert_eq!(info.kind, "File Attachments");
    assert_eq!(model.label, "File Attachments");
    assert!(matches!(model.raw_data, ComponentPayload::FileAttachments(_)));
    let form = ComponentForm::FileAttachments(CommonLabelForm { label: "Docs".to_string() });
    dispatch_update(&registry(), &mut repo, a, &query, &form).unwrap();
    let (_, model) = dispatch_fetch(&registry(), &repo, a, &query).unwrap();
    assert_eq!(model.label, "Docs");
}

#[test]
fn fetch_needs_ownership() {
    let mut repo = CmsRepository::new();
    let page = add_page(&mut repo, user(1), "P");
    let id = create(&mut repo, user(1), MARKDOWN, page);
    let query = UpdateFetchQuery::new(MARKDOWN.to_string(), id);
    assert!(matches!(
        dispatch_fetch(&registry(), &repo, user(2), &query),
        Err(CmsRequestError::Forbidden)
    ));
    assert!(dispatch_fetch(&registry(), &repo, admin(2), &query).is_ok());
}

#[test]
fn status_codes() {
    assert_eq!(CmsRequestError::NotFound.status_code(), 404);
    assert_eq!(CmsRequestError::Forbidden.status_code(), 403);
    assert_eq!(CmsRequestError::BadRequest.status_code(), 400);
    assert_eq!(CmsRequestError::Internal.status_code(), 500);
}

#[test]
fn delete_single_attachment() {
    let mut repo = CmsRepository::new();
    let service = CmsAttachmentService::new();
    service
        .add_file(&mut repo, 4, "a".to_string(), "/p/a".to_string(), "t".to_string(), 1)
        .unwrap();
    service
        .add_file(&mut repo, 4, "b".to_string(), "/p/b".to_string(), "t".to_string(), 2)
        .unwrap();
    assert!(matches!(
        service.delete_file_by_id(&mut repo, 1, 5),
        Err(CmsAttachmentServiceError::NotFoundError)
    ));
    assert!(matches!(
        service.delete_file_by_id(&mut repo, 9, 4),
        Err(CmsAttachmentServiceError::NotFoundError)
    ));
    assert_eq!(service.delete_file_by_id(&mut repo, 1, 4).unwrap(), "/p/a");
    let left = service.list_file_by_component_id(&repo, 4).unwrap();
    assert_eq!(left.len(), 1);
    assert_eq!(left[0].id, 2);
    assert_eq!(left[0].file_name, "b");
    assert_eq!(left[0].uploaded, 2);
}

#[test]
fn repository_reports_no_error_on_missing_rows() {
    let mut repo = CmsRepository::new();
    assert!(matches!(repo.fetch_page(1), Ok(None)));
    assert!(matches!(repo.fetch_component(1), Ok(None)));
    assert!(matches!(repo.get_author_id_page(1), Ok(None)));
    assert!(matches!(repo.get_author_id_component(1), Ok(None)));
    assert!(matches!(repo.get_file_path(1, 1), Ok(None)));
    assert!(repo.delete_component(1).is_ok());
    let _unused: Option<CmsRepositoryError> = None;
}

#[test]
fn resolution_names_the_kind_of_the_component() {
    let mut repo = CmsRepository::new();
    let a = user(1);
    let page = add_page(&mut repo, a, "P");
    let files = create(&mut repo, a, FILES, page);
    let query = UpdateFetchQuery::new(FILES.to_string(), files);
    let (info, kind) = resolve_update_fetch(&registry(), &repo, a, &query).unwrap();
    assert_eq!(kind, ComponentKind::FileAttachments);
    assert_eq!(info.kind, "File Attachments");
    let wrong = UpdateFetchQuery::new(MARKDOWN.to_string(), files);
    assert!(matches!(
        resolve_update_fetch(&registry(), &repo, a, &wrong),
        Err(CmsRequestError::NotFound)
    ));
    assert!(matches!(
        resolve_update_fetch(&registry(), &repo, user(2), &query),
        Err(CmsRequestError::Forbidden)
    ));
}

#[test]
fn attachment_requests_need_a_file_attachment_component() {
    let mut repo = CmsRepository::new();
    let a = user(1);
    let page = add_page(&mut repo, a, "P");
    let text = create(&mut repo, a, MARKDOWN, page);
    let files = create(&mut repo, a, FILES, page);
    let query = UpdateFetchQuery::new(MARKDOWN.to_string(), text);
    assert!(matches!(
        resolve_attachment_request(&registry(), &repo, a, &query),
        Err(CmsRequestError::BadRequest)
    ));
    let query = UpdateFetchQuery::new(FILES.to_string(), files);
    assert_eq!(resolve_attachment_request(&registry(), &repo, a, &query).unwrap().kind, "File Attachments");
    assert!(matches!(
        resolve_attachment_request(&registry(), &repo, user(2), &query),
        Err(CmsRequestError::Forbidden)
    ));
}

#[test]
fn upload_paths() {
    assert_eq!(
        attachment_file_path("2024-05-01-1714521600", 42, "a.txt"),
        "/cms/files/2024-05-01-1714521600-42/a.txt"
    );
    assert_eq!(attachment_file_path("s", -7, "b"), "/cms/files/s--7/b");
    assert_eq!(attachment_file_path("", 0, ""), "/cms/files/-0/");
}

#[test]
fn created_components_start_in_their_kind_defaults() {
    let mut repo = CmsRepository::new();
    let a = user(1);
    let page = add_page(&mut repo, a, "P");
    let query = CreateQuery::new(MARKDOWN.to_string(), page as u64);
    let (_, r) = dispatch_create(&registry(), &mut repo, a, &query).unwrap();
    let stored = repo.fetch_component(r.id as i64).unwrap().unwrap();
    let decoded = MarkdownComponent::from_data(&stored.raw_data).unwrap();
    assert_eq!(decoded.content, "Hello World");
}
