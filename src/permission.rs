use crate::repository::{component_author, page_author, CmsRepository};
use vstd::prelude::*;

verus! {

/// The role of an authenticated user.
#[derive(Debug, Clone, Copy, PartialEq, Eq, Structural)]
pub enum Role {
    /// May act on every page.
    Admin,
    /// May act on the pages they wrote.
    User,
}

/// The authenticated user a request acts for.
#[derive(Debug, Clone, Copy, PartialEq, Eq, Structural)]
pub struct UserPointer {
    pub id: i64,
    pub role: Role,
}

/// Why an ownership check failed.
#[derive(Debug, Clone, Copy, PartialEq, Eq, Structural)]
pub enum CmsPermissionCheckServiceError {
    NoPermission,
    DbError,
    NotFound,
}

/// The outcome of an ownership check, given the author found for the page (if any).
pub open spec fn permission_outcome(author: Option<i64>, user: UserPointer) -> Result<
    (),
    CmsPermissionCheckServiceError,
> {
    match author {
        None => Err(CmsPermissionCheckServiceError::NotFound),
        Some(a) => if user.role == Role::Admin || user.id == a {
            Ok(())
        } else {
            Err(CmsPermissionCheckServiceError::NoPermission)
        },
    }
}

/// Ownership checks for the acting user.
#[derive(Debug, Clone, Copy)]
pub struct CmsPermissionCheckService {
    pub user_pointer: UserPointer,
}

impl CmsPermissionCheckService {
    pub fn new(user_pointer: UserPointer) -> (r: Self)
        ensures
            r.user_pointer == user_pointer,
    {
        CmsPermissionCheckService { user_pointer }
    }

    fn decide(&self, author: Option<i64>) -> (r: Result<(), CmsPermissionCheckServiceError>)
        ensures
            r == permission_outcome(author, self.user_pointer),
    {
        match author {
            None => Err(CmsPermissionCheckServiceError::NotFound),
            Some(a) => {
                if self.user_pointer.role == Role::Admin {
                    return Ok(());
                }
                if a != self.user_pointer.id {
                    return Err(CmsPermissionCheckServiceError::NoPermission);
                }
                Ok(())
            },
        }
    }

    /// Succeeds when the page exists and the user is an admin or its author.
    pub fn check_permission_by_page_id(&self, repo: &CmsRepository, page_id: i64) -> (r: Result<
        (),
        CmsPermissionCheckServiceError,
    >)
        ensures
            r == permission_outcome(page_author(repo.page_rows(), page_id), self.user_pointer),
    {
        match repo.get_author_id_page(page_id) {
            Ok(Some(author)) => self.decide(Some(author.0)),
            Ok(None) => self.decide(None),
            Err(_) => Err(CmsPermissionCheckServiceError::DbError),
        }
    }

    /// Succeeds when the component and its page exist and the user is an admin or the
    /// page's author.
    pub fn check_permission_by_component_id(
        &self,
        repo: &CmsRepository,
        component_id: i64,
    ) -> (r: Result<(), CmsPermissionCheckServiceError>)
        ensures
            r == permission_outcome(
                component_author(repo.page_rows(), repo.component_rows(), component_id),
                self.user_pointer,
            ),
    {
        match repo.get_author_id_component(component_id) {
            Ok(Some(author)) => self.decide(Some(author.0)),
            Ok(None) => self.decide(None),
            Err(_) => Err(CmsPermissionCheckServiceError::DbError),
        }
    }
}

} // verus!
