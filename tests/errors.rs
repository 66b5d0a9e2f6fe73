use backoffice::attachment_service::{CmsAttachmentService, CmsAttachmentServiceError};
use backoffice::component::{ComponentInfoMarker, FileAttachmentsComponent, MarkdownComponent};
use backoffice::data_model::{AddPageModel, CreateComponentModel};
use backoffice::dispatch::{dispatch_create, CmsRequestError};
use backoffice::form::{AddPageForm, CommonLabelForm, MarkdownForm};
use backoffice::label_service::{CommonLabelService, CommonLabelServiceError};
use backoffice::markdown_service::{MarkdownComponentService, MarkdownComponentServiceError};
use backoffice::page_service::{CmsPageService, CmsPageServiceError};
use backoffice::permission::{Role, UserPointer};
use backoffice::query::{CreateQuery, UpdateFetchQuery};
use backoffice::registry::registry;
use backoffice::repository::{CmsRepository, CmsRepositoryError, ComponentRow, FileAttachmentRow, PageRow};
use backoffice::status::CmsPageStatus;

fn user(id: i64) -> UserPointer {
    UserPointer { id, role: Role::User }
}

fn page(id: i64) -> PageRow {
    PageRow {
        id,
        user_id: 1,
        title: "p".to_string(),
        summary: String::new(),
        status: CmsPageStatus::Draft,
        added: 0,
        updated: None,
    }
}

fn component(id: i64, kind_uuid: &str) -> ComponentRow {
    ComponentRow {
        id,
        page_id: 1,
        kind_uuid: kind_uuid.to_string(),
        label: "c".to_string(),
        position: 0,
        raw_data: Vec::new(),
    }
}

fn attachment(id: i64) -> FileAttachmentRow {
    FileAttachmentRow {
        id,
        component_id: 1,
        file_name: "f".to_string(),
        file_path: "/f".to_string(),
        file_type: "t".to_string(),
        uploaded: 0,
    }
}

/// A store whose tables have given out their last ids.
fn full_store() -> CmsRepository {
    let max = i64::MAX - 1;
    CmsRepository::from_rows(
        vec![page(1), page(max)],
        vec![component(max, "3191d0cc-0f3f-4a7c-b81a-dcfee22e524b")],
        vec![attachment(max)],
    )
    .unwrap()
}

#[test]
fn exhausted_ids_are_query_errors() {
    let mut repo = full_store();
    let model = AddPageModel {
        user_id: 1,
        title: "t".to_string(),
        summary: String::new(),
        status: CmsPageStatus::Draft,
    };
    assert!(matches!(repo.add_page(model, 0), Err(CmsRepositoryError::QueryError)));
    let model = CreateComponentModel {
        page_id: 1,
        kind_uuid: "k".to_string(),
        raw_data: Vec::new(),
        label: "l".to_string(),
    };
    assert!(matches!(repo.create_component(model), Err(CmsRepositoryError::QueryError)));
}

#[test]
fn exhausted_ids_surface_as_service_errors() {
    let mut repo = full_store();
    let form = AddPageForm { title: "t".to_string() };
    assert!(matches!(
        CmsPageService::new(user(1)).add_page(&mut repo, &form, 0),
        Err(CmsPageServiceError::DbError)
    ));
    assert!(matches!(
        CmsAttachmentService::new().add_file(&mut repo, 1, "a".to_string(), "/a".to_string(), "t".to_string(), 0),
        Err(CmsAttachmentServiceError::DbError)
    ));
    let query = CreateQuery::new("3191d0cc-0f3f-4a7c-b81a-dcfee22e524b".to_string(), 1);
    let markdown = MarkdownForm { label: "l".to_string(), markdown: "m".to_string() };
    assert!(matches!(
        MarkdownComponentService::new(MarkdownComponent::component_info())
            .create_component(&mut repo, &query, &markdown),
        Err(MarkdownComponentServiceError::DbError)
    ));
    let label = CommonLabelForm { label: "l".to_string() };
    assert!(matches!(
        CommonLabelService::new(FileAttachmentsComponent::component_info())
            .create_component(&mut repo, &query, &label),
        Err(CommonLabelServiceError::DbError)
    ));
    assert!(matches!(
        dispatch_create(&registry(), &mut repo, user(1), &query),
        Err(CmsRequestError::Internal)
    ));
}

#[test]
fn markdown_fetch_of_foreign_bytes_is_a_codec_error() {
    let mut repo = CmsRepository::new();
    CmsPageService::new(user(1))
        .add_page(&mut repo, &AddPageForm { title: "p".to_string() }, 0)
        .unwrap();
    let query = CreateQuery::new("8a810f99-772c-4f52-91ed-72a4560cf6d0".to_string(), 1);
    let label = CommonLabelForm { label: "files".to_string() };
    let created = CommonLabelService::new(FileAttachmentsComponent::component_info())
        .create_component(&mut repo, &query, &label)
        .unwrap();
    let service = MarkdownComponentService::new(MarkdownComponent::component_info());
    assert!(matches!(
        service.fetch_component(&repo, &created),
        Err(MarkdownComponentServiceError::CodecError)
    ));
}

#[test]
fn label_service_on_missing_component() {
    let mut repo = CmsRepository::new();
    let service = CommonLabelService::new(FileAttachmentsComponent::component_info());
    let query = UpdateFetchQuery::new("8a810f99-772c-4f52-91ed-72a4560cf6d0".to_string(), 3);
    assert!(matches!(service.fetch_component(&repo, &query), Err(CommonLabelServiceError::NotFound)));
    let far = UpdateFetchQuery::new("8a810f99-772c-4f52-91ed-72a4560cf6d0".to_string(), u64::MAX);
    let form = CommonLabelForm { label: "x".to_string() };
    assert!(matches!(
        service.update_component(&mut repo, &far, &form),
        Err(CommonLabelServiceError::NotFound)
    ));
    assert!(service.update_component(&mut repo, &query, &form).is_ok());
}

#[test]
fn page_id_beyond_the_signed_range_is_not_found() {
    let mut repo = CmsRepository::new();
    let query = CreateQuery::new("3191d0cc-0f3f-4a7c-b81a-dcfee22e524b".to_string(), u64::MAX);
    let markdown = MarkdownForm { label: "l".to_string(), markdown: "m".to_string() };
    assert!(matches!(
        MarkdownComponentService::new(MarkdownComponent::component_info())
            .create_component(&mut repo, &query, &markdown),
        Err(MarkdownComponentServiceError::NotFound)
    ));
    assert!(matches!(
        dispatch_create(&registry(), &mut repo, UserPointer { id: 1, role: Role::Admin }, &query),
        Err(CmsRequestError::NotFound)
    ));
}
