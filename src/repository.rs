use crate::data_model::{
    AddFileAttachmentModel, AddPageModel, CreateComponentModel, FetchComponentModel,
    FetchPageModel, FilePath, ListComponentModel, ListFileAttachmentModel, ListPageModel,
    ReturningIdModel, UpdateComponentModel, UpdateComponentPositionModel, UpdatePageModel,
    UserIdModel,
};
use crate::status::CmsPageStatus;
use vstd::prelude::*;

verus! {

/// Failures of the storage layer.
#[derive(Debug, Clone, Copy, PartialEq, Eq, Structural)]
pub enum CmsRepositoryError {
    /// A statement could not be carried out.
    QueryError,
    /// A stored row could not be read as the expected shape.
    RowValueError,
    /// The connection could not be obtained.
    BorrowConnError,
}

/// A stored page; times are seconds since the Unix epoch.
#[derive(Debug)]
pub struct PageRow {
    pub id: i64,
    pub user_id: i64,
    pub title: String,
    pub summary: String,
    pub status: CmsPageStatus,
    pub added: i64,
    pub updated: Option<i64>,
}

/// A stored component; `raw_data` is read only by its kind's codec.
#[derive(Debug)]
pub struct ComponentRow {
    pub id: i64,
    pub page_id: i64,
    pub kind_uuid: String,
    pub label: String,
    pub position: i64,
    pub raw_data: Vec<u8>,
}

/// A stored file attachment; `uploaded` is seconds since the Unix epoch.
#[derive(Debug)]
pub struct FileAttachmentRow {
    pub id: i64,
    pub component_id: i64,
    pub file_name: String,
    pub file_path: String,
    pub file_type: String,
    pub uploaded: i64,
}

/// The page with the given id, if one is stored.
pub open spec fn find_page(rows: Seq<PageRow>, id: i64) -> Option<PageRow>
    decreases rows.len(),
{
    if rows.len() == 0 {
        None
    } else if rows.last().id == id {
        Some(rows.last())
    } else {
        find_page(rows.drop_last(), id)
    }
}

/// The component with the given id, if one is stored.
pub open spec fn find_component(rows: Seq<ComponentRow>, id: i64) -> Option<ComponentRow>
    decreases rows.len(),
{
    if rows.len() == 0 {
        None
    } else if rows.last().id == id {
        Some(rows.last())
    } else {
        find_component(rows.drop_last(), id)
    }
}

/// The author of a stored page.
pub open spec fn page_author(pages: Seq<PageRow>, page_id: i64) -> Option<i64> {
    match find_page(pages, page_id) {
        Some(p) => Some(p.user_id),
        None => None,
    }
}

/// The author of a stored component: the author of its page.
pub open spec fn component_author(
    pages: Seq<PageRow>,
    components: Seq<ComponentRow>,
    component_id: i64,
) -> Option<i64> {
    match find_component(components, component_id) {
        Some(c) => page_author(pages, c.page_id),
        None => None,
    }
}

/// The attachment with the given id, if one is stored.
pub open spec fn find_attachment(rows: Seq<FileAttachmentRow>, id: i64) -> Option<FileAttachmentRow>
    decreases rows.len(),
{
    if rows.len() == 0 {
        None
    } else if rows.last().id == id {
        Some(rows.last())
    } else {
        find_attachment(rows.drop_last(), id)
    }
}

/// Holds of every component but the one with the given id.
pub open spec fn component_other_than(id: i64) -> spec_fn(ComponentRow) -> bool {
    other_than::<ComponentRow>(id)
}

/// Holds of every attachment but the one with the given id.
pub open spec fn attachment_other_than(id: i64) -> spec_fn(FileAttachmentRow) -> bool {
    other_than::<FileAttachmentRow>(id)
}

/// Holds of the attachments of the given component.
pub open spec fn attached_to(component_id: i64) -> spec_fn(FileAttachmentRow) -> bool {
    |a: FileAttachmentRow| a.component_id == component_id
}

/// Holds of the attachments of every other component.
pub open spec fn not_attached_to(component_id: i64) -> spec_fn(FileAttachmentRow) -> bool {
    not_under::<FileAttachmentRow>(component_id)
}

/// The components after a new label and payload are set on the one with the given id.
pub open spec fn with_component_data(
    rows: Seq<ComponentRow>,
    id: i64,
    label: String,
    raw_data: Vec<u8>,
) -> Seq<ComponentRow> {
    rows.map_values(
        |c: ComponentRow|
            if c.id == id {
                ComponentRow { label: label, raw_data: raw_data, ..c }
            } else {
                c
            },
    )
}

/// The components after a new position is set on the one with the given id, if it belongs
/// to the given page.
pub open spec fn with_position(
    rows: Seq<ComponentRow>,
    id: i64,
    page_id: i64,
    position: i64,
) -> Seq<ComponentRow> {
    rows.map_values(
        |c: ComponentRow|
            if c.id == id && c.page_id == page_id {
                ComponentRow { position: position, ..c }
            } else {
                c
            },
    )
}

/// The pages after new editable fields are set, at `now`, on the one with the given id.
pub open spec fn with_page_fields(rows: Seq<PageRow>, model: UpdatePageModel, now: i64) -> Seq<
    PageRow,
> {
    rows.map_values(
        |p: PageRow|
            if p.id == model.id {
                PageRow {
                    title: model.title,
                    summary: model.summary,
                    status: model.status,
                    updated: Some(now),
                    ..p
                }
            } else {
                p
            },
    )
}

/// `after` is `before` with one more component at its end, stored under `id` at position 0.
pub open spec fn appended_component(
    before: Seq<ComponentRow>,
    after: Seq<ComponentRow>,
    id: i64,
    page_id: i64,
    kind_uuid: Seq<char>,
    label: Seq<char>,
    raw_data: Seq<u8>,
) -> bool {
    &&& after.len() == before.len() + 1
    &&& after.drop_last() == before
    &&& after.last().id == id
    &&& after.last().page_id == page_id
    &&& after.last().kind_uuid@ == kind_uuid
    &&& after.last().label@ == label
    &&& after.last().position == 0
    &&& after.last().raw_data@ == raw_data
}

/// `after` is `before` with a new label and payload on the component with the given id.
pub open spec fn relabelled_component(
    before: Seq<ComponentRow>,
    after: Seq<ComponentRow>,
    id: i64,
    label: Seq<char>,
    raw_data: Seq<u8>,
) -> bool {
    exists|l: String, d: Vec<u8>|
        l@ == label && d@ == raw_data && after == with_component_data(before, id, l, d)
}

/// Listing order: ascending position, ties broken by ascending id.
pub open spec fn listed_before(a_position: i64, a_id: i64, b_position: i64, b_id: i64) -> bool {
    a_position < b_position || (a_position == b_position && a_id < b_id)
}

/// A listing entry shows the given component.
pub open spec fn lists_component(e: ListComponentModel, c: ComponentRow) -> bool {
    &&& e.id == c.id
    &&& e.position == c.position
    &&& e.kind_uuid@ == c.kind_uuid@
    &&& e.label@ == c.label@
}

/// A listing entry shows the given attachment.
pub open spec fn lists_attachment(e: ListFileAttachmentModel, a: FileAttachmentRow) -> bool {
    &&& e.id == a.id
    &&& e.file_name@ == a.file_name@
    &&& e.file_path@ == a.file_path@
    &&& e.file_type@ == a.file_type@
    &&& e.uploaded == a.uploaded
}

/// A listing entry shows the given page.
pub open spec fn lists_page(e: ListPageModel, p: PageRow) -> bool {
    &&& e.id == p.id
    &&& e.user_id == p.user_id
    &&& e.title@ == p.title@
    &&& e.added == p.added
    &&& e.updated == p.updated
    &&& e.status == p.status
}

/// The entry shows one of the first `n` components, and that one belongs to the given page.
#[verifier::opaque]
pub open spec fn shows_component_of(
    rows: Seq<ComponentRow>,
    n: int,
    page_id: i64,
    e: ListComponentModel,
) -> bool {
    exists|k: int| 0 <= k < n && rows[k].page_id == page_id && lists_component(e, rows[k])
}

/// Some entry of the listing shows the given component.
#[verifier::opaque]
pub open spec fn listed_in(out: Seq<ListComponentModel>, c: ComponentRow) -> bool {
    exists|m: int| 0 <= m < out.len() && lists_component(out[m], c)
}

/// Entries are in listing order, with no two of one id.
pub open spec fn sorted_listing(s: Seq<ListComponentModel>) -> bool {
    forall|a: int, b: int|
        0 <= a < b < s.len() ==> listed_before(s[a].position, s[a].id, s[b].position, s[b].id)
}

/// Puts an entry into a sorted listing at its place and returns that place.
fn insert_listed(out: &mut Vec<ListComponentModel>, entry: ListComponentModel) -> (j: usize)
    requires
        sorted_listing(old(out)@),
        forall|m: int| 0 <= m < old(out)@.len() ==> old(out)@[m].id < entry.id,
    ensures
        j <= old(out)@.len(),
        final(out)@ == old(out)@.insert(j as int, entry),
        sorted_listing(final(out)@),
{
    let mut j: usize = 0;
    while j < out.len() && (out[j].position < entry.position || (out[j].position == entry.position
        && out[j].id < entry.id))
        invariant
            j <= out@.len(),
            forall|m: int|
                0 <= m < j ==> listed_before(out@[m].position, out@[m].id, entry.position, entry.id),
        decreases out@.len() - j,
    {
        j = j + 1;
    }
    let ghost before = out@;
    let ghost e = entry;
    out.insert(j, entry);
    proof {
        let after = out@;
        assert forall|a: int, b: int| 0 <= a < b < after.len() implies listed_before(
            after[a].position,
            after[a].id,
            after[b].position,
            after[b].id,
        ) by {
            if b < j {
                assert(after[a] == before[a] && after[b] == before[b]);
            } else if b == j {
                assert(after[a] == before[a] && after[b] == e);
            } else if a < j {
                assert(after[a] == before[a] && after[b] == before[b - 1]);
            } else if a == j {
                assert(after[a] == e && after[b] == before[b - 1]);
                assert(listed_before(e.position, e.id, before[j as int].position, before[j as int].id));
                if b - 1 > j {
                    assert(listed_before(
                        before[j as int].position,
                        before[j as int].id,
                        before[b - 1].position,
                        before[b - 1].id,
                    ));
                }
            } else {
                assert(after[a] == before[a - 1] && after[b] == before[b - 1]);
            }
        }
    }
    j
}

/// Once the attachments of a component are removed, none of that component is left.
pub proof fn lemma_no_attachment_left(rows: Seq<FileAttachmentRow>, component_id: i64)
    ensures
        rows.filter(not_attached_to(component_id)).filter(attached_to(component_id)).len() == 0,
        forall|i: int|
            0 <= i < rows.filter(not_attached_to(component_id)).len() ==> (#[trigger] rows.filter(
                not_attached_to(component_id),
            )[i]).component_id != component_id,
{
    let kept = rows.filter(not_attached_to(component_id));
    assert forall|i: int| 0 <= i < kept.len() implies (#[trigger] kept[i]).component_id
        != component_id by {
        rows.lemma_filter_pred(not_attached_to(component_id), i);
    }
    kept.lemma_all_neg_filter_empty(attached_to(component_id));
}

/// A row of one of the tables: it has an id, and the id of what it belongs to (the author of a
/// page, the page of a component, the component of an attachment).
pub trait StoredRow: Sized {
    spec fn spec_id(&self) -> i64;

    spec fn spec_parent(&self) -> i64;

    fn row_id(&self) -> (r: i64)
        ensures
            r == self.spec_id(),
    ;

    fn parent_id(&self) -> (r: i64)
        ensures
            r == self.spec_parent(),
    ;
}

impl StoredRow for PageRow {
    open spec fn spec_id(&self) -> i64 {
        self.id
    }

    open spec fn spec_parent(&self) -> i64 {
        self.user_id
    }

    fn row_id(&self) -> (r: i64) {
        self.id
    }

    fn parent_id(&self) -> (r: i64) {
        self.user_id
    }
}

impl StoredRow for ComponentRow {
    open spec fn spec_id(&self) -> i64 {
        self.id
    }

    open spec fn spec_parent(&self) -> i64 {
        self.page_id
    }

    fn row_id(&self) -> (r: i64) {
        self.id
    }

    fn parent_id(&self) -> (r: i64) {
        self.page_id
    }
}

impl StoredRow for FileAttachmentRow {
    open spec fn spec_id(&self) -> i64 {
        self.id
    }

    open spec fn spec_parent(&self) -> i64 {
        self.component_id
    }

    fn row_id(&self) -> (r: i64) {
        self.id
    }

    fn parent_id(&self) -> (r: i64) {
        self.component_id
    }
}

/// Holds of every row but the one with the given id.
pub open spec fn other_than<T: StoredRow>(id: i64) -> spec_fn(T) -> bool {
    |r: T| r.spec_id() != id
}

/// Holds of the rows that belong to anything but the given parent.
pub open spec fn not_under<T: StoredRow>(parent: i64) -> spec_fn(T) -> bool {
    |r: T| r.spec_parent() != parent
}

/// Ids are positive, below the next id to give out, and strictly increasing along the table.
pub open spec fn ids_ok<T: StoredRow>(rows: Seq<T>, next: i64) -> bool {
    &&& forall|i: int| 0 <= i < rows.len() ==> 0 < #[trigger] rows[i].spec_id() < next
    &&& forall|i: int, j: int| 0 <= i < j < rows.len() ==> rows[i].spec_id() < rows[j].spec_id()
}

/// The id that follows a table read back from durable storage, if its ids are in order.
fn next_id_of<T: StoredRow>(rows: &Vec<T>) -> (r: Option<i64>)
    ensures
        r is Some <==> ids_ok(rows@, i64::MAX),
        r matches Some(n) ==> ids_ok(rows@, n) && n == (if rows@.len() == 0 {
            1
        } else {
            rows@.last().spec_id() + 1
        }),
{
    let mut i: usize = 0;
    while i < rows.len()
        invariant
            i <= rows@.len(),
            forall|j: int| 0 <= j < i ==> 0 < #[trigger] rows@[j].spec_id() < i64::MAX,
            forall|j: int, k: int| 0 <= j < k < i ==> rows@[j].spec_id() < rows@[k].spec_id(),
        decreases rows@.len() - i,
    {
        let id = rows[i].row_id();
        if id <= 0 || id == i64::MAX {
            return None;
        }
        if i > 0 && rows[i - 1].row_id() >= id {
            return None;
        }
        i = i + 1;
    }
    if rows.len() == 0 {
        Some(1)
    } else {
        Some(rows[rows.len() - 1].row_id() + 1)
    }
}

/// The rows that remain once those with the given id (or, with `by_parent`, those under the
/// given parent) are taken out, in their order.
fn retain_rows<T: StoredRow>(rows: Vec<T>, key: i64, by_parent: bool, Ghost(next): Ghost<i64>) -> (r:
    Vec<T>)
    requires
        ids_ok(rows@, next),
    ensures
        r@ == rows@.filter(if by_parent { not_under::<T>(key) } else { other_than::<T>(key) }),
        ids_ok(r@, next),
{
    let ghost pred = if by_parent { not_under::<T>(key) } else { other_than::<T>(key) };
    let ghost orig = rows@;
    let mut rest = rows;
    let mut kept: Vec<T> = Vec::new();
    proof {
        assert(orig.subrange(0, 0) =~= Seq::<T>::empty());
        assert(rest@ =~= orig.subrange(0, orig.len() as int));
    }
    while rest.len() > 0
        invariant
            rest@.len() <= orig.len(),
            rest@ =~= orig.subrange(orig.len() - rest@.len(), orig.len() as int),
            pred == (if by_parent { not_under::<T>(key) } else { other_than::<T>(key) }),
            kept@ == orig.subrange(0, orig.len() - rest@.len()).filter(pred),
            ids_ok(orig, next),
            ids_ok(kept@, next),
            forall|m: int, j: int|
                0 <= m < kept@.len() && 0 <= j < rest@.len() ==> kept@[m].spec_id()
                    < rest@[j].spec_id(),
        decreases rest.len(),
    {
        let ghost done = orig.len() - rest@.len();
        let row = rest.remove(0);
        proof {
            assert(orig.subrange(0, done + 1) =~= orig.subrange(0, done).push(row));
            orig.subrange(0, done).lemma_filter_push(row, pred);
        }
        let keep = if by_parent {
            row.parent_id() != key
        } else {
            row.row_id() != key
        };
        proof {
            if by_parent {
                assert(pred == not_under::<T>(key));
            } else {
                assert(pred == other_than::<T>(key));
            }
            assert(keep == pred(row));
        }
        if keep {
            kept.push(row);
        }
    }
    proof {
        assert(orig.subrange(0, orig.len() as int) =~= orig);
    }
    kept
}

/// The tables of pages, components and file attachments, with the next id of each.
pub struct CmsRepository {
    pages: Vec<PageRow>,
    components: Vec<ComponentRow>,
    attachments: Vec<FileAttachmentRow>,
    next_page_id: i64,
    next_component_id: i64,
    next_attachment_id: i64,
}

impl CmsRepository {
    pub closed spec fn page_rows(&self) -> Seq<PageRow> {
        self.pages@
    }

    pub closed spec fn component_rows(&self) -> Seq<ComponentRow> {
        self.components@
    }

    pub closed spec fn attachment_rows(&self) -> Seq<FileAttachmentRow> {
        self.attachments@
    }

    pub closed spec fn spec_next_page_id(&self) -> i64 {
        self.next_page_id
    }

    pub closed spec fn spec_next_component_id(&self) -> i64 {
        self.next_component_id
    }

    pub closed spec fn spec_next_attachment_id(&self) -> i64 {
        self.next_attachment_id
    }

    pub open spec fn wf(&self) -> bool {
        &&& self.spec_next_page_id() >= 1
        &&& self.spec_next_component_id() >= 1
        &&& self.spec_next_attachment_id() >= 1
        &&& ids_ok(self.page_rows(), self.spec_next_page_id())
        &&& ids_ok(self.component_rows(), self.spec_next_component_id())
        &&& ids_ok(self.attachment_rows(), self.spec_next_attachment_id())
    }

    /// An empty store.
    pub fn new() -> (r: Self)
        ensures
            r.wf(),
            r.page_rows().len() == 0,
            r.component_rows().len() == 0,
            r.attachment_rows().len() == 0,
            r.spec_next_page_id() == 1,
            r.spec_next_component_id() == 1,
            r.spec_next_attachment_id() == 1,
    {
        CmsRepository {
            pages: Vec::new(),
            components: Vec::new(),
            attachments: Vec::new(),
            next_page_id: 1,
            next_component_id: 1,
            next_attachment_id: 1,
        }
    }

    /// Stores a new page, added at `now`, and returns its id.
    pub fn add_page(&mut self, page: AddPageModel, now: i64) -> (r: Result<
        ReturningIdModel,
        CmsRepositoryError,
    >)
        requires
            old(self).wf(),
        ensures
            final(self).wf(),
            final(self).component_rows() == old(self).component_rows(),
            final(self).attachment_rows() == old(self).attachment_rows(),
            final(self).spec_next_component_id() == old(self).spec_next_component_id(),
            final(self).spec_next_attachment_id() == old(self).spec_next_attachment_id(),
            old(self).spec_next_page_id() == i64::MAX ==> r == Err::<ReturningIdModel, _>(
                CmsRepositoryError::QueryError,
            ) && *final(self) == *old(self),
            old(self).spec_next_page_id() < i64::MAX ==> r == Ok::<_, CmsRepositoryError>(
                ReturningIdModel(old(self).spec_next_page_id()),
            ) && final(self).spec_next_page_id() == old(self).spec_next_page_id() + 1
                && final(self).page_rows() == old(self).page_rows().push(
                (PageRow {
                    id: old(self).spec_next_page_id(),
                    user_id: page.user_id,
                    title: page.title,
                    summary: page.summary,
                    status: page.status,
                    added: now,
                    updated: None,
                }),
            ),
    {
        if self.next_page_id == i64::MAX {
            return Err(CmsRepositoryError::QueryError);
        }
        let id = self.next_page_id;
        self.pages.push(
            PageRow {
                id,
                user_id: page.user_id,
                title: page.title,
                summary: page.summary,
                status: page.status,
                added: now,
                updated: None,
            },
        );
        self.next_page_id = id + 1;
        Ok(ReturningIdModel(id))
    }

    fn page_index(&self, id: i64) -> (r: Option<usize>)
        ensures
            find_page(self.page_rows(), id) == (match r {
                Some(i) => Some(self.page_rows()[i as int]),
                None => None::<PageRow>,
            }),
            r matches Some(i) ==> i < self.page_rows().len() && self.page_rows()[i as int].id == id,
            r is None ==> forall|j: int| 0 <= j < self.page_rows().len() ==> self.page_rows()[j].id != id,
    {
        let mut i: usize = self.pages.len();
        proof {
            assert(self.pages@.subrange(0, i as int) =~= self.pages@);
        }
        while i > 0
            invariant
                i <= self.pages@.len(),
                forall|j: int| i <= j < self.pages@.len() ==> self.pages@[j].id != id,
                find_page(self.pages@, id) == find_page(self.pages@.subrange(0, i as int), id),
            decreases i,
        {
            proof {
                assert(self.pages@.subrange(0, i as int).drop_last() =~= self.pages@.subrange(
                    0,
                    i - 1,
                ));
            }
            i = i - 1;
            if self.pages[i].id == id {
                return Some(i);
            }
        }
        None
    }

    fn component_index(&self, id: i64) -> (r: Option<usize>)
        ensures
            find_component(self.component_rows(), id) == (match r {
                Some(i) => Some(self.component_rows()[i as int]),
                None => None::<ComponentRow>,
            }),
            r matches Some(i) ==> i < self.component_rows().len() && self.component_rows()[i as int].id
                == id,
            r is None ==> forall|j: int|
                0 <= j < self.component_rows().len() ==> self.component_rows()[j].id != id,
    {
        let mut i: usize = self.components.len();
        proof {
            assert(self.components@.subrange(0, i as int) =~= self.components@);
        }
        while i > 0
            invariant
                i <= self.components@.len(),
                forall|j: int| i <= j < self.components@.len() ==> self.components@[j].id != id,
                find_component(self.components@, id) == find_component(
                    self.components@.subrange(0, i as int),
                    id,
                ),
            decreases i,
        {
            proof {
                assert(self.components@.subrange(0, i as int).drop_last()
                    =~= self.components@.subrange(0, i - 1));
            }
            i = i - 1;
            if self.components[i].id == id {
                return Some(i);
            }
        }
        None
    }

    /// The editable fields of the page with the given id.
    pub fn fetch_page(&self, id: i64) -> (r: Result<Option<FetchPageModel>, CmsRepositoryError>)
        ensures
            r is Ok,
            match find_page(self.page_rows(), id) {
                Some(p) => r->Ok_0 matches Some(m) && m.id == p.id && m.title@ == p.title@
                    && m.summary@ == p.summary@ && m.status == p.status,
                None => r->Ok_0 is None,
            },
    {
        match self.page_index(id) {
            Some(i) => {
                let row = &self.pages[i];
                Ok(
                    Some(
                        FetchPageModel {
                            id: row.id,
                            title: row.title.clone(),
                            summary: row.summary.clone(),
                            status: row.status,
                        },
                    ),
                )
            },
            None => Ok(None),
        }
    }

    /// The author of the page with the given id.
    pub fn get_author_id_page(&self, id: i64) -> (r: Result<Option<UserIdModel>, CmsRepositoryError>)
        ensures
            r == Ok::<_, CmsRepositoryError>(
                match page_author(self.page_rows(), id) {
                    Some(u) => Some(UserIdModel(u)),
                    None => None,
                },
            ),
    {
        match self.page_index(id) {
            Some(i) => Ok(Some(UserIdModel(self.pages[i].user_id))),
            None => Ok(None),
        }
    }

    /// The author of the page that holds the component with the given id.
    pub fn get_author_id_component(&self, id: i64) -> (r: Result<
        Option<UserIdModel>,
        CmsRepositoryError,
    >)
        ensures
            r == Ok::<_, CmsRepositoryError>(
                match component_author(self.page_rows(), self.component_rows(), id) {
                    Some(u) => Some(UserIdModel(u)),
                    None => None,
                },
            ),
    {
        match self.component_index(id) {
            Some(i) => self.get_author_id_page(self.components[i].page_id),
            None => Ok(None),
        }
    }

    /// Stores a new component at position 0 and returns its id.
    pub fn create_component(&mut self, model: CreateComponentModel) -> (r: Result<
        ReturningIdModel,
        CmsRepositoryError,
    >)
        requires
            old(self).wf(),
        ensures
            final(self).wf(),
            final(self).page_rows() == old(self).page_rows(),
            final(self).attachment_rows() == old(self).attachment_rows(),
            final(self).spec_next_page_id() == old(self).spec_next_page_id(),
            final(self).spec_next_attachment_id() == old(self).spec_next_attachment_id(),
            old(self).spec_next_component_id() == i64::MAX ==> r == Err::<ReturningIdModel, _>(
                CmsRepositoryError::QueryError,
            ) && *final(self) == *old(self),
            old(self).spec_next_component_id() < i64::MAX ==> r == Ok::<_, CmsRepositoryError>(
                ReturningIdModel(old(self).spec_next_component_id()),
            ) && final(self).spec_next_component_id() == old(self).spec_next_component_id() + 1
                && final(self).component_rows() == old(self).component_rows().push(
                (ComponentRow {
                    id: old(self).spec_next_component_id(),
                    page_id: model.page_id,
                    kind_uuid: model.kind_uuid,
                    label: model.label,
                    position: 0,
                    raw_data: model.raw_data,
                }),
            ),
    {
        if self.next_component_id == i64::MAX {
            return Err(CmsRepositoryError::QueryError);
        }
        let id = self.next_component_id;
        self.components.push(
            ComponentRow {
                id,
                page_id: model.page_id,
                kind_uuid: model.kind_uuid,
                label: model.label,
                position: 0,
                raw_data: model.raw_data,
            },
        );
        self.next_component_id = id + 1;
        Ok(ReturningIdModel(id))
    }

    /// The label, position and raw payload of the component with the given id.
    pub fn fetch_component(&self, id: i64) -> (r: Result<
        Option<FetchComponentModel<Vec<u8>>>,
        CmsRepositoryError,
    >)
        ensures
            r is Ok,
            match find_component(self.component_rows(), id) {
                Some(c) => r->Ok_0 matches Some(m) && m.label@ == c.label@ && m.position
                    == c.position && m.raw_data@ == c.raw_data@,
                None => r->Ok_0 is None,
            },
    {
        match self.component_index(id) {
            Some(i) => {
                let row = &self.components[i];
                Ok(
                    Some(
                        FetchComponentModel {
                            label: row.label.clone(),
                            position: row.position,
                            raw_data: row.raw_data.clone(),
                        },
                    ),
                )
            },
            None => Ok(None),
        }
    }

    /// Sets a new label and payload on the component with the given id.
    pub fn update_component(&mut self, model: UpdateComponentModel) -> (r: Result<
        (),
        CmsRepositoryError,
    >)
        requires
            old(self).wf(),
        ensures
            r is Ok,
            final(self).wf(),
            final(self).component_rows() == with_component_data(
                old(self).component_rows(),
                model.id,
                model.label,
                model.raw_data,
            ),
            final(self).page_rows() == old(self).page_rows(),
            final(self).attachment_rows() == old(self).attachment_rows(),
            final(self).spec_next_page_id() == old(self).spec_next_page_id(),
            final(self).spec_next_component_id() == old(self).spec_next_component_id(),
            final(self).spec_next_attachment_id() == old(self).spec_next_attachment_id(),
    {
        let ghost rows = self.components@;
        let ghost label = model.label;
        let ghost raw_data = model.raw_data;
        match self.component_index(model.id) {
            Some(i) => {
                let row = self.components.remove(i);
                let new_row = ComponentRow {
                    id: row.id,
                    page_id: row.page_id,
                    kind_uuid: row.kind_uuid,
                    label: model.label,
                    position: row.position,
                    raw_data: model.raw_data,
                };
                self.components.insert(i, new_row);
                proof {
                    assert forall|j: int| 0 <= j < rows.len() && j != i implies rows[j].id
                        != model.id by {
                        if j < i {
                            assert(rows[j].id < rows[i as int].id);
                        } else {
                            assert(rows[i as int].id < rows[j].id);
                        }
                    }
                    assert(self.components@ =~= with_component_data(rows, model.id, label, raw_data));
                }
            },
            None => {
                proof {
                    assert(self.components@ =~= with_component_data(rows, model.id, label, raw_data));
                }
            },
        }
        Ok(())
    }

    /// Sets a new position on the component with the given id, if it belongs to the given page.
    pub fn update_component_position(&mut self, model: UpdateComponentPositionModel) -> (r: Result<
        (),
        CmsRepositoryError,
    >)
        requires
            old(self).wf(),
        ensures
            r is Ok,
            final(self).wf(),
            final(self).component_rows() == with_position(
                old(self).component_rows(),
                model.id,
                model.page_id,
                model.position,
            ),
            final(self).page_rows() == old(self).page_rows(),
            final(self).attachment_rows() == old(self).attachment_rows(),
            final(self).spec_next_page_id() == old(self).spec_next_page_id(),
            final(self).spec_next_component_id() == old(self).spec_next_component_id(),
            final(self).spec_next_attachment_id() == old(self).spec_next_attachment_id(),
    {
        let ghost rows = self.components@;
        match self.component_index(model.id) {
            Some(i) => {
                if self.components[i].page_id == model.page_id {
                    let row = self.components.remove(i);
                    let new_row = ComponentRow {
                        id: row.id,
                        page_id: row.page_id,
                        kind_uuid: row.kind_uuid,
                        label: row.label,
                        position: model.position,
                        raw_data: row.raw_data,
                    };
                    self.components.insert(i, new_row);
                }
                proof {
                    assert forall|j: int| 0 <= j < rows.len() && j != i implies rows[j].id
                        != model.id by {
                        if j < i {
                            assert(rows[j].id < rows[i as int].id);
                        } else {
                            assert(rows[i as int].id < rows[j].id);
                        }
                    }
                    assert(self.components@ =~= with_position(
                        rows,
                        model.id,
                        model.page_id,
                        model.position,
                    ));
                }
            },
            None => {
                proof {
                    assert(self.components@ =~= with_position(
                        rows,
                        model.id,
                        model.page_id,
                        model.position,
                    ));
                }
            },
        }
        Ok(())
    }

    /// Sets new editable fields, updated at `now`, on the page with the given id.
    pub fn update_page(&mut self, model: UpdatePageModel, now: i64) -> (r: Result<
        (),
        CmsRepositoryError,
    >)
        requires
            old(self).wf(),
        ensures
            r is Ok,
            final(self).wf(),
            final(self).page_rows() == with_page_fields(old(self).page_rows(), model, now),
            final(self).component_rows() == old(self).component_rows(),
            final(self).attachment_rows() == old(self).attachment_rows(),
            final(self).spec_next_page_id() == old(self).spec_next_page_id(),
            final(self).spec_next_component_id() == old(self).spec_next_component_id(),
            final(self).spec_next_attachment_id() == old(self).spec_next_attachment_id(),
    {
        let ghost rows = self.pages@;
        let ghost m = model;
        match self.page_index(model.id) {
            Some(i) => {
                let row = self.pages.remove(i);
                let new_row = PageRow {
                    id: row.id,
                    user_id: row.user_id,
                    title: model.title,
                    summary: model.summary,
                    status: model.status,
                    added: row.added,
                    updated: Some(now),
                };
                self.pages.insert(i, new_row);
                proof {
                    assert forall|j: int| 0 <= j < rows.len() && j != i implies rows[j].id
                        != m.id by {
                        if j < i {
                            assert(rows[j].id < rows[i as int].id);
                        } else {
                            assert(rows[i as int].id < rows[j].id);
                        }
                    }
                    assert(self.pages@ =~= with_page_fields(rows, m, now));
                }
            },
            None => {
                proof {
                    assert(self.pages@ =~= with_page_fields(rows, m, now));
                }
            },
        }
        Ok(())
    }

    /// Removes the component with the given id; its attachments are left to the caller.
    pub fn delete_component(&mut self, id: i64) -> (r: Result<(), CmsRepositoryError>)
        requires
            old(self).wf(),
        ensures
            r is Ok,
            final(self).wf(),
            final(self).component_rows() == old(self).component_rows().filter(
                component_other_than(id),
            ),
            final(self).page_rows() == old(self).page_rows(),
            final(self).attachment_rows() == old(self).attachment_rows(),
            final(self).spec_next_page_id() == old(self).spec_next_page_id(),
            final(self).spec_next_component_id() == old(self).spec_next_component_id(),
            final(self).spec_next_attachment_id() == old(self).spec_next_attachment_id(),
    {
        let mut rows: Vec<ComponentRow> = Vec::new();
        std::mem::swap(&mut rows, &mut self.components);
        self.components = retain_rows(rows, id, false, Ghost(self.next_component_id));
        Ok(())
    }

    /// Removes the attachment with the given id.
    pub fn delete_file_attachment(&mut self, id: i64) -> (r: Result<(), CmsRepositoryError>)
        requires
            old(self).wf(),
        ensures
            r is Ok,
            final(self).wf(),
            final(self).attachment_rows() == old(self).attachment_rows().filter(attachment_other_than(id)),
            final(self).page_rows() == old(self).page_rows(),
            final(self).component_rows() == old(self).component_rows(),
            final(self).spec_next_page_id() == old(self).spec_next_page_id(),
            final(self).spec_next_component_id() == old(self).spec_next_component_id(),
            final(self).spec_next_attachment_id() == old(self).spec_next_attachment_id(),
    {
        let mut rows: Vec<FileAttachmentRow> = Vec::new();
        std::mem::swap(&mut rows, &mut self.attachments);
        self.attachments = retain_rows(rows, id, false, Ghost(self.next_attachment_id));
        Ok(())
    }

    /// Removes every attachment of the given component.
    pub fn delete_file_attachment_by_component_id(&mut self, component_id: i64) -> (r: Result<(), CmsRepositoryError>)
        requires
            old(self).wf(),
        ensures
            r is Ok,
            final(self).wf(),
            final(self).attachment_rows() == old(self).attachment_rows().filter(not_attached_to(component_id)),
            final(self).page_rows() == old(self).page_rows(),
            final(self).component_rows() == old(self).component_rows(),
            final(self).spec_next_page_id() == old(self).spec_next_page_id(),
            final(self).spec_next_component_id() == old(self).spec_next_component_id(),
            final(self).spec_next_attachment_id() == old(self).spec_next_attachment_id(),
    {
        let mut rows: Vec<FileAttachmentRow> = Vec::new();
        std::mem::swap(&mut rows, &mut self.attachments);
        self.attachments = retain_rows(rows, component_id, true, Ghost(self.next_attachment_id));
        Ok(())
    }

    /// Stores a new attachment, uploaded at `now`.
    pub fn add_file_attachment(&mut self, model: AddFileAttachmentModel, now: i64) -> (r: Result<
        (),
        CmsRepositoryError,
    >)
        requires
            old(self).wf(),
        ensures
            final(self).wf(),
            final(self).page_rows() == old(self).page_rows(),
            final(self).component_rows() == old(self).component_rows(),
            final(self).spec_next_page_id() == old(self).spec_next_page_id(),
            final(self).spec_next_component_id() == old(self).spec_next_component_id(),
            old(self).spec_next_attachment_id() == i64::MAX ==> r == Err::<(), _>(
                CmsRepositoryError::QueryError,
            ) && *final(self) == *old(self),
            old(self).spec_next_attachment_id() < i64::MAX ==> r is Ok
                && final(self).spec_next_attachment_id() == old(self).spec_next_attachment_id() + 1
                && final(self).attachment_rows() == old(self).attachment_rows().push(
                (FileAttachmentRow {
                    id: old(self).spec_next_attachment_id(),
                    component_id: model.component_id,
                    file_name: model.file_name,
                    file_path: model.file_path,
                    file_type: model.file_type,
                    uploaded: now,
                }),
            ),
    {
        if self.next_attachment_id == i64::MAX {
            return Err(CmsRepositoryError::QueryError);
        }
        let id = self.next_attachment_id;
        self.attachments.push(
            FileAttachmentRow {
                id,
                component_id: model.component_id,
                file_name: model.file_name,
                file_path: model.file_path,
                file_type: model.file_type,
                uploaded: now,
            },
        );
        self.next_attachment_id = id + 1;
        Ok(())
    }

    /// The stored path of the attachment with the given id, if it belongs to the given component.
    pub fn get_file_path(&self, id: i64, component_id: i64) -> (r: Result<
        Option<FilePath>,
        CmsRepositoryError,
    >)
        ensures
            r is Ok,
            match find_attachment(self.attachment_rows(), id) {
                Some(a) => if a.component_id == component_id {
                    r->Ok_0 matches Some(f) && f.0@ == a.file_path@
                } else {
                    r->Ok_0 is None
                },
                None => r->Ok_0 is None,
            },
    {
        let mut i: usize = self.attachments.len();
        proof {
            assert(self.attachments@.subrange(0, i as int) =~= self.attachments@);
        }
        while i > 0
            invariant
                i <= self.attachments@.len(),
                find_attachment(self.attachments@, id) == find_attachment(
                    self.attachments@.subrange(0, i as int),
                    id,
                ),
            decreases i,
        {
            proof {
                assert(self.attachments@.subrange(0, i as int).drop_last()
                    =~= self.attachments@.subrange(0, i - 1));
            }
            i = i - 1;
            let row = &self.attachments[i];
            if row.id == id {
                if row.component_id == component_id {
                    return Ok(Some(FilePath(row.file_path.clone())));
                } else {
                    return Ok(None);
                }
            }
        }
        Ok(None)
    }

    /// The attachments of the given component, in the order they were stored.
    pub fn list_file_attachment(&self, component_id: i64) -> (r: Result<
        Vec<ListFileAttachmentModel>,
        CmsRepositoryError,
    >)
        ensures
            r is Ok,
            r->Ok_0@.len() == self.attachment_rows().filter(attached_to(component_id)).len(),
            forall|m: int|
                0 <= m < r->Ok_0@.len() ==> lists_attachment(
                    #[trigger] r->Ok_0@[m],
                    self.attachment_rows().filter(attached_to(component_id))[m],
                ),
    {
        let ghost rows = self.attachments@;
        let mut out: Vec<ListFileAttachmentModel> = Vec::new();
        let mut i: usize = 0;
        proof {
            assert(rows.subrange(0, 0) =~= Seq::<FileAttachmentRow>::empty());
        }
        while i < self.attachments.len()
            invariant
                i <= rows.len(),
                rows == self.attachments@,
                out@.len() == rows.subrange(0, i as int).filter(attached_to(component_id)).len(),
                forall|m: int|
                    0 <= m < out@.len() ==> lists_attachment(
                        #[trigger] out@[m],
                        rows.subrange(0, i as int).filter(attached_to(component_id))[m],
                    ),
            decreases rows.len() - i,
        {
            let row = &self.attachments[i];
            proof {
                assert(rows.subrange(0, i + 1) =~= rows.subrange(0, i as int).push(*row));
                rows.subrange(0, i as int).lemma_filter_push(*row, attached_to(component_id));
            }
            if row.component_id == component_id {
                out.push(
                    ListFileAttachmentModel {
                        id: row.id,
                        file_name: row.file_name.clone(),
                        file_path: row.file_path.clone(),
                        file_type: row.file_type.clone(),
                        uploaded: row.uploaded,
                    },
                );
            }
            i = i + 1;
        }
        proof {
            assert(rows.subrange(0, rows.len() as int) =~= rows);
        }
        Ok(out)
    }

    /// Every page, in the order they were stored.
    pub fn list_page(&self) -> (r: Result<Vec<ListPageModel>, CmsRepositoryError>)
        ensures
            r is Ok,
            r->Ok_0@.len() == self.page_rows().len(),
            forall|m: int|
                0 <= m < r->Ok_0@.len() ==> lists_page(#[trigger] r->Ok_0@[m], self.page_rows()[m]),
    {
        let mut out: Vec<ListPageModel> = Vec::new();
        let mut i: usize = 0;
        while i < self.pages.len()
            invariant
                i <= self.pages@.len(),
                out@.len() == i,
                forall|m: int| 0 <= m < i ==> lists_page(#[trigger] out@[m], self.pages@[m]),
            decreases self.pages@.len() - i,
        {
            let row = &self.pages[i];
            out.push(
                ListPageModel {
                    id: row.id,
                    user_id: row.user_id,
                    title: row.title.clone(),
                    added: row.added,
                    updated: row.updated,
                    status: row.status,
                },
            );
            i = i + 1;
        }
        Ok(out)
    }

    /// The components of the given page, by ascending position, ties by ascending id.
    pub fn list_component(&self, page_id: i64) -> (r: Result<
        Vec<ListComponentModel>,
        CmsRepositoryError,
    >)
        requires
            self.wf(),
        ensures
            r is Ok,
            sorted_listing(r->Ok_0@),
            forall|m: int|
                0 <= m < r->Ok_0@.len() ==> shows_component_of(
                    self.component_rows(),
                    self.component_rows().len() as int,
                    page_id,
                    #[trigger] r->Ok_0@[m],
                ),
            forall|k: int|
                0 <= k < self.component_rows().len() && self.component_rows()[k].page_id
                    == page_id ==> listed_in(r->Ok_0@, #[trigger] self.component_rows()[k]),
    {
        let ghost rows = self.components@;
        let mut out: Vec<ListComponentModel> = Vec::new();
        let mut i: usize = 0;
        while i < self.components.len()
            invariant
                i <= rows.len(),
                rows == self.components@,
                ids_ok(rows, self.spec_next_component_id()),
                sorted_listing(out@),
                forall|m: int|
                    0 <= m < out@.len() ==> shows_component_of(rows, i as int, page_id, #[trigger] out@[m]),
                forall|k: int|
                    0 <= k < i && rows[k].page_id == page_id ==> listed_in(out@, #[trigger] rows[k]),
            decreases rows.len() - i,
        {
            let row = &self.components[i];
            let ghost before = out@;
            if row.page_id == page_id {
                let entry = ListComponentModel {
                    id: row.id,
                    kind_uuid: row.kind_uuid.clone(),
                    position: row.position,
                    label: row.label.clone(),
                };
                proof {
                    assert forall|m: int| 0 <= m < before.len() implies before[m].id < entry.id by {
                        reveal(shows_component_of);
                        assert(shows_component_of(rows, i as int, page_id, before[m]));
                        let k = choose|k: int|
                            0 <= k < i && rows[k].page_id == page_id && lists_component(
                                before[m],
                                rows[k],
                            );
                        assert(rows[k].id < rows[i as int].id);
                    }
                }
                let j = insert_listed(&mut out, entry);
                proof {
                    reveal(shows_component_of);
                    reveal(listed_in);
                    let after = out@;
                    assert forall|m: int| 0 <= m < after.len() implies shows_component_of(
                        rows,
                        i + 1,
                        page_id,
                        #[trigger] after[m],
                    ) by {
                        if m < j {
                            assert(after[m] == before[m]);
                            assert(shows_component_of(rows, i as int, page_id, before[m]));
                        } else if m == j {
                            assert(lists_component(after[m], rows[i as int]));
                        } else {
                            assert(after[m] == before[m - 1]);
                            assert(shows_component_of(rows, i as int, page_id, before[m - 1]));
                        }
                    }
                    assert forall|k: int| 0 <= k < i + 1 && rows[k].page_id == page_id implies listed_in(
                        after,
                        #[trigger] rows[k],
                    ) by {
                        if k == i {
                            assert(lists_component(after[j as int], rows[k]));
                        } else {
                            assert(listed_in(before, rows[k]));
                            let m0 = choose|m: int|
                                0 <= m < before.len() && lists_component(before[m], rows[k]);
                            if m0 < j {
                                assert(lists_component(after[m0], rows[k]));
                            } else {
                                assert(lists_component(after[m0 + 1], rows[k]));
                            }
                        }
                    }
                }
            } else {
                proof {
                    reveal(shows_component_of);
                    assert forall|m: int| 0 <= m < out@.len() implies shows_component_of(
                        rows,
                        i + 1,
                        page_id,
                        #[trigger] out@[m],
                    ) by {
                        assert(shows_component_of(rows, i as int, page_id, out@[m]));
                    }
                }
            }
            i = i + 1;
        }
        Ok(out)
    }

    /// The kind identifier stored with the component with the given id.
    pub fn fetch_component_kind(&self, id: i64) -> (r: Result<Option<String>, CmsRepositoryError>)
        ensures
            r is Ok,
            match find_component(self.component_rows(), id) {
                Some(c) => r->Ok_0 matches Some(k) && k@ == c.kind_uuid@,
                None => r->Ok_0 is None,
            },
    {
        match self.component_index(id) {
            Some(i) => Ok(Some(self.components[i].kind_uuid.clone())),
            None => Ok(None),
        }
    }

    /// A store holding the given tables, as read back from durable storage: ids must be
    /// positive, below `i64::MAX` and strictly increasing in each table, else the rows are
    /// refused with `RowValueError`. Each next id follows the table's last id.
    pub fn from_rows(
        pages: Vec<PageRow>,
        components: Vec<ComponentRow>,
        attachments: Vec<FileAttachmentRow>,
    ) -> (r: Result<CmsRepository, CmsRepositoryError>)
        ensures
            r is Ok <==> ids_ok(pages@, i64::MAX) && ids_ok(components@, i64::MAX)
                && ids_ok(attachments@, i64::MAX),
            r is Err ==> r == Err::<CmsRepository, _>(CmsRepositoryError::RowValueError),
            r matches Ok(repo) ==> {
                &&& repo.wf()
                &&& repo.page_rows() == pages@
                &&& repo.component_rows() == components@
                &&& repo.attachment_rows() == attachments@
                &&& repo.spec_next_page_id() == if pages@.len() == 0 {
                    1
                } else {
                    pages@.last().id + 1
                }
                &&& repo.spec_next_component_id() == if components@.len() == 0 {
                    1
                } else {
                    components@.last().id + 1
                }
                &&& repo.spec_next_attachment_id() == if attachments@.len() == 0 {
                    1
                } else {
                    attachments@.last().id + 1
                }
            },
    {
        let next_page_id = match next_id_of(&pages) {
            Some(n) => n,
            None => {
                return Err(CmsRepositoryError::RowValueError);
            },
        };
        let next_component_id = match next_id_of(&components) {
            Some(n) => n,
            None => {
                return Err(CmsRepositoryError::RowValueError);
            },
        };
        let next_attachment_id = match next_id_of(&attachments) {
            Some(n) => n,
            None => {
                return Err(CmsRepositoryError::RowValueError);
            },
        };
        Ok(
            CmsRepository {
                pages,
                components,
                attachments,
                next_page_id,
                next_component_id,
                next_attachment_id,
            },
        )
    }

    /// The stored pages, for writing to durable storage.
    pub fn pages(&self) -> (r: &Vec<PageRow>)
        ensures
            r@ == self.page_rows(),
    {
        &self.pages
    }

    /// The stored components, for writing to durable storage.
    pub fn components(&self) -> (r: &Vec<ComponentRow>)
        ensures
            r@ == self.component_rows(),
    {
        &self.components
    }

    /// The stored attachments, for writing to durable storage.
    pub fn attachments(&self) -> (r: &Vec<FileAttachmentRow>)
        ensures
            r@ == self.attachment_rows(),
    {
        &self.attachments
    }
}

} // verus!
