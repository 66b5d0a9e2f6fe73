use crate::data_model::{AddFileAttachmentModel, ListFileAttachmentModel};
use crate::repository::{
    attached_to, attachment_other_than, find_attachment, lists_attachment, not_attached_to,
    CmsRepository,
};
use vstd::prelude::*;

verus! {

/// Failures of the attachment operations.
#[derive(Debug, Clone, Copy, PartialEq, Eq, Structural)]
pub enum CmsAttachmentServiceError {
    DbError,
    /// The file could not be read or written.
    SaveError,
    NotFoundError,
}

/// The decimal digit for `d`, below ten.
pub open spec fn digit_char(d: nat) -> char {
    seq!['0', '1', '2', '3', '4', '5', '6', '7', '8', '9'][d as int]
}

/// The decimal digits of a natural number, most significant first.
pub open spec fn decimal_digits(n: nat) -> Seq<char>
    decreases n,
{
    if n < 10 {
        seq![digit_char(n)]
    } else {
        decimal_digits(n / 10).push(digit_char(n % 10))
    }
}

/// The decimal text of an integer, with a leading `-` when it is negative.
pub open spec fn decimal_text(n: int) -> Seq<char> {
    if n < 0 {
        seq!['-'] + decimal_digits((-n) as nat)
    } else {
        decimal_digits(n as nat)
    }
}

/// Relies on `String::push_str`: the text is appended at the end.
#[verifier::external_body]
fn append_text(s: &mut String, t: &str)
    ensures
        final(s)@ == old(s)@ + t@,
{
    s.push_str(t)
}

/// Relies on `Display` for `i64` (through `to_string`): an integer is written in decimal,
/// with a leading `-` when it is negative.
#[verifier::external_body]
fn i64_text(n: i64) -> (r: String)
    ensures
        r@ == decimal_text(n as int),
{
    n.to_string()
}

/// Where an upload is stored, relative to the upload root: under `/cms/files/`, in a
/// directory named by the upload's time stamp and the uploader's id, under its own name.
pub fn attachment_file_path(stamp: &str, user_id: i64, file_name: &str) -> (r: String)
    ensures
        r@ == "/cms/files/"@ + stamp@ + "-"@ + decimal_text(user_id as int) + "/"@ + file_name@,
{
    let mut path = "/cms/files/".to_string();
    append_text(&mut path, stamp);
    append_text(&mut path, "-");
    let id = i64_text(user_id);
    append_text(&mut path, id.as_str());
    append_text(&mut path, "/");
    append_text(&mut path, file_name);
    path
}

/// The stored side of file attachments: which files a component has, and where they lie.
/// The bytes on disk are written and removed by the caller, at the paths this service
/// records and hands back.
#[derive(Debug, Clone, Copy)]
pub struct CmsAttachmentService;

impl CmsAttachmentService {
    pub fn new() -> (r: Self) {
        CmsAttachmentService
    }

    /// Records a file, already written at `file_path`, as an attachment of the component,
    /// uploaded at `now`.
    pub fn add_file(
        &self,
        repo: &mut CmsRepository,
        component_id: i64,
        file_name: String,
        file_path: String,
        file_type: String,
        now: i64,
    ) -> (r: Result<(), CmsAttachmentServiceError>)
        requires
            old(repo).wf(),
        ensures
            final(repo).wf(),
            final(repo).page_rows() == old(repo).page_rows(),
            final(repo).component_rows() == old(repo).component_rows(),
            r is Err <==> old(repo).spec_next_attachment_id() == i64::MAX,
            r is Err ==> r == Err::<(), _>(CmsAttachmentServiceError::DbError) && *final(repo)
                == *old(repo),
            r is Ok ==> final(repo).attachment_rows().drop_last() == old(repo).attachment_rows()
                && final(repo).attachment_rows().len() == old(repo).attachment_rows().len() + 1
                && final(repo).attachment_rows().last().id == old(repo).spec_next_attachment_id()
                && final(repo).attachment_rows().last().component_id == component_id
                && final(repo).attachment_rows().last().file_name == file_name
                && final(repo).attachment_rows().last().file_path == file_path
                && final(repo).attachment_rows().last().file_type == file_type
                && final(repo).attachment_rows().last().uploaded == now,
    {
        let model = AddFileAttachmentModel { component_id, file_name, file_path, file_type };
        match repo.add_file_attachment(model, now) {
            Ok(()) => {
                proof {
                    assert(repo.attachment_rows().drop_last() =~= old(repo).attachment_rows());
                }
                Ok(())
            },
            Err(_) => Err(CmsAttachmentServiceError::DbError),
        }
    }

    /// Removes every attachment of the component and returns their stored paths, in the
    /// order they were stored, for the caller to remove from disk.
    pub fn delete_file_by_component_id(&self, repo: &mut CmsRepository, component_id: i64) -> (r:
        Result<Vec<String>, CmsAttachmentServiceError>)
        requires
            old(repo).wf(),
        ensures
            r is Ok,
            final(repo).wf(),
            final(repo).attachment_rows() == old(repo).attachment_rows().filter(
                not_attached_to(component_id),
            ),
            final(repo).page_rows() == old(repo).page_rows(),
            final(repo).component_rows() == old(repo).component_rows(),
            r->Ok_0@.len() == old(repo).attachment_rows().filter(attached_to(component_id)).len(),
            forall|m: int|
                0 <= m < r->Ok_0@.len() ==> (#[trigger] r->Ok_0@[m])@ == old(
                    repo,
                ).attachment_rows().filter(attached_to(component_id))[m].file_path@,
    {
        let list_file = match repo.list_file_attachment(component_id) {
            Ok(l) => l,
            Err(_) => {
                return Err(CmsAttachmentServiceError::DbError);
            },
        };
        match repo.delete_file_attachment_by_component_id(component_id) {
            Ok(()) => {},
            Err(_) => {
                return Err(CmsAttachmentServiceError::DbError);
            },
        }
        let mut paths: Vec<String> = Vec::new();
        let mut i: usize = 0;
        while i < list_file.len()
            invariant
                i <= list_file@.len(),
                paths@.len() == i,
                forall|m: int| 0 <= m < i ==> (#[trigger] paths@[m])@ == list_file@[m].file_path@,
            decreases list_file@.len() - i,
        {
            paths.push(list_file[i].file_path.clone());
            i = i + 1;
        }
        proof {
            let filt = old(repo).attachment_rows().filter(attached_to(component_id));
            assert forall|m: int| 0 <= m < paths@.len() implies (#[trigger] paths@[m])@
                == filt[m].file_path@ by {
                assert(lists_attachment(list_file@[m], filt[m]));
            }
        }
        Ok(paths)
    }

    /// Removes the attachment with the given id from the given component and returns its
    /// stored path, or `NotFoundError` when the component has no such attachment.
    pub fn delete_file_by_id(&self, repo: &mut CmsRepository, id: i64, component_id: i64) -> (r:
        Result<String, CmsAttachmentServiceError>)
        requires
            old(repo).wf(),
        ensures
            final(repo).wf(),
            final(repo).page_rows() == old(repo).page_rows(),
            final(repo).component_rows() == old(repo).component_rows(),
            match find_attachment(old(repo).attachment_rows(), id) {
                Some(a) if a.component_id == component_id => r is Ok && r->Ok_0@ == a.file_path@
                    && final(repo).attachment_rows() == old(repo).attachment_rows().filter(
                    attachment_other_than(id),
                ),
                _ => r == Err::<String, _>(CmsAttachmentServiceError::NotFoundError) && *final(repo)
                    == *old(repo),
            },
    {
        let file = match repo.get_file_path(id, component_id) {
            Ok(Some(f)) => f,
            Ok(None) => {
                return Err(CmsAttachmentServiceError::NotFoundError);
            },
            Err(_) => {
                return Err(CmsAttachmentServiceError::DbError);
            },
        };
        match repo.delete_file_attachment(id) {
            Ok(()) => Ok(file.0),
            Err(_) => Err(CmsAttachmentServiceError::DbError),
        }
    }

    /// The attachments of the component, in the order they were stored.
    pub fn list_file_by_component_id(&self, repo: &CmsRepository, component_id: i64) -> (r: Result<
        Vec<ListFileAttachmentModel>,
        CmsAttachmentServiceError,
    >)
        ensures
            r is Ok,
            r->Ok_0@.len() == repo.attachment_rows().filter(attached_to(component_id)).len(),
            forall|m: int|
                0 <= m < r->Ok_0@.len() ==> lists_attachment(
                    #[trigger] r->Ok_0@[m],
                    repo.attachment_rows().filter(attached_to(component_id))[m],
                ),
    {
        match repo.list_file_attachment(component_id) {
            Ok(l) => Ok(l),
            Err(_) => Err(CmsAttachmentServiceError::DbError),
        }
    }
}

} // verus!
