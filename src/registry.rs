use crate::component::{
    CmsComponentInfo, ComponentInfoMarker, FileAttachmentsComponent, MarkdownComponent,
};
use vstd::prelude::*;

verus! {

/// Lexicographic order of texts, character by character (the order of `str`'s `<`).
pub open spec fn text_lt(a: Seq<char>, b: Seq<char>) -> bool
    decreases a.len(),
{
    if a.len() == 0 {
        b.len() > 0
    } else if b.len() == 0 {
        false
    } else if a[0] != b[0] {
        (a[0] as u32) < (b[0] as u32)
    } else {
        text_lt(a.subrange(1, a.len() as int), b.subrange(1, b.len() as int))
    }
}

/// No text comes before itself.
pub proof fn lemma_text_lt_irreflexive(a: Seq<char>)
    ensures
        !text_lt(a, a),
    decreases a.len(),
{
    if a.len() > 0 {
        lemma_text_lt_irreflexive(a.subrange(1, a.len() as int));
    }
}

/// The order of texts is transitive.
pub proof fn lemma_text_lt_transitive(a: Seq<char>, b: Seq<char>, c: Seq<char>)
    requires
        text_lt(a, b),
        text_lt(b, c),
    ensures
        text_lt(a, c),
    decreases a.len(),
{
    if a.len() > 0 && b.len() > 0 && c.len() > 0 && a[0] == b[0] && b[0] == c[0] {
        lemma_text_lt_transitive(
            a.subrange(1, a.len() as int),
            b.subrange(1, b.len() as int),
            c.subrange(1, c.len() as int),
        );
    }
}

/// Whether `a` comes before `b` in the order of `text_lt`.
fn str_lt(a: &str, b: &str) -> (r: bool)
    ensures
        r == text_lt(a@, b@),
{
    let la = a.unicode_len();
    let lb = b.unicode_len();
    let mut i: usize = 0;
    proof {
        assert(a@.subrange(0, la as int) =~= a@);
        assert(b@.subrange(0, lb as int) =~= b@);
    }
    while i < la && i < lb
        invariant
            la == a@.len(),
            lb == b@.len(),
            i <= la,
            i <= lb,
            text_lt(a@, b@) == text_lt(
                a@.subrange(i as int, la as int),
                b@.subrange(i as int, lb as int),
            ),
        decreases la - i,
    {
        let ca = a.get_char(i);
        let cb = b.get_char(i);
        let ghost sa = a@.subrange(i as int, la as int);
        let ghost sb = b@.subrange(i as int, lb as int);
        assert(sa[0] == ca && sb[0] == cb);
        if ca != cb {
            return (ca as u32) < (cb as u32);
        }
        proof {
            assert(sa.subrange(1, sa.len() as int) =~= a@.subrange(i + 1, la as int));
            assert(sb.subrange(1, sb.len() as int) =~= b@.subrange(i + 1, lb as int));
        }
        i = i + 1;
    }
    i < lb
}

/// The set of handlers a component kind brings: one variant per kind.
#[derive(Debug, Clone, Copy, PartialEq, Eq, Structural)]
pub enum ComponentKind {
    Markdown,
    FileAttachments,
}

/// A registry entry: a kind's description and the handlers that serve it.
#[derive(Debug, Clone)]
pub struct ComponentMethods {
    pub info: CmsComponentInfo,
    pub kind: ComponentKind,
}

/// Where the entry for a kind identifier stands, or -1 when there is none.
pub open spec fn kind_index(entries: Seq<ComponentMethods>, key: Seq<char>) -> int
    decreases entries.len(),
{
    if entries.len() == 0 {
        -1
    } else if entries.last().info.kind_uuid@ == key {
        entries.len() - 1
    } else {
        kind_index(entries.drop_last(), key)
    }
}

/// No two entries share a kind identifier.
pub open spec fn unique_kinds(entries: Seq<ComponentMethods>) -> bool {
    forall|i: int, j: int|
        0 <= i < j < entries.len() ==> entries[i].info.kind_uuid@ != entries[j].info.kind_uuid@
}

/// The entries after `item` is registered: it takes the place of an entry of its kind, or
/// comes last.
pub open spec fn with_registered(entries: Seq<ComponentMethods>, item: ComponentMethods) -> Seq<
    ComponentMethods,
> {
    let i = kind_index(entries, item.info.kind_uuid@);
    if i < 0 {
        entries.push(item)
    } else {
        entries.update(i, item)
    }
}

/// `kind_index` points at an entry of the kind, and is -1 only when there is none.
pub proof fn lemma_kind_index(entries: Seq<ComponentMethods>, key: Seq<char>)
    ensures
        -1 <= kind_index(entries, key) < entries.len(),
        kind_index(entries, key) >= 0 ==> entries[kind_index(entries, key)].info.kind_uuid@ == key,
        kind_index(entries, key) < 0 ==> forall|i: int|
            0 <= i < entries.len() ==> entries[i].info.kind_uuid@ != key,
    decreases entries.len(),
{
    if entries.len() > 0 {
        lemma_kind_index(entries.drop_last(), key);
        assert forall|i: int| 0 <= i < entries.len() - 1 implies entries.drop_last()[i]
            == entries[i] by {}
    }
}

/// A listed description shows the given entry's kind.
pub open spec fn shows_info(e: CmsComponentInfo, m: ComponentMethods) -> bool {
    e.kind@ == m.info.kind@ && e.kind_uuid@ == m.info.kind_uuid@
}

/// The description shows one of the entries.
#[verifier::opaque]
pub open spec fn shows_some_entry(entries: Seq<ComponentMethods>, n: int, e: CmsComponentInfo) -> bool {
    exists|k: int| 0 <= k < n && shows_info(e, entries[k])
}

/// Some description of the list shows the entry.
#[verifier::opaque]
pub open spec fn entry_listed(out: Seq<CmsComponentInfo>, m: ComponentMethods) -> bool {
    exists|j: int| 0 <= j < out.len() && shows_info(out[j], m)
}

/// No two descriptions share a kind identifier.
pub open spec fn distinct_kinds(s: Seq<CmsComponentInfo>) -> bool {
    forall|a: int, b: int| 0 <= a < b < s.len() ==> s[a].kind_uuid@ != s[b].kind_uuid@
}

/// Descriptions in ascending order of display name.
pub open spec fn sorted_by_kind(s: Seq<CmsComponentInfo>) -> bool {
    forall|a: int, b: int| 0 <= a < b < s.len() ==> !text_lt(s[b].kind@, s[a].kind@)
}

/// Puts a description into a list sorted by display name, after those of an equal name.
fn insert_by_kind(out: &mut Vec<CmsComponentInfo>, e: CmsComponentInfo) -> (j: usize)
    requires
        sorted_by_kind(old(out)@),
    ensures
        j <= old(out)@.len(),
        final(out)@ == old(out)@.insert(j as int, e),
        sorted_by_kind(final(out)@),
{
    let mut j: usize = 0;
    while j < out.len() && !str_lt(e.kind.as_str(), out[j].kind.as_str())
        invariant
            j <= out@.len(),
            forall|m: int| 0 <= m < j ==> !text_lt(e.kind@, out@[m].kind@),
        decreases out@.len() - j,
    {
        j = j + 1;
    }
    let ghost before = out@;
    let ghost g = e;
    out.insert(j, e);
    proof {
        let after = out@;
        assert forall|a: int, b: int| 0 <= a < b < after.len() implies !text_lt(
            after[b].kind@,
            after[a].kind@,
        ) by {
            if b < j {
                assert(after[a] == before[a] && after[b] == before[b]);
            } else if b == j {
                assert(after[a] == before[a] && after[b] == g);
            } else if a < j {
                assert(after[a] == before[a] && after[b] == before[b - 1]);
            } else if a == j {
                assert(after[a] == g && after[b] == before[b - 1]);
                assert(text_lt(g.kind@, before[j as int].kind@));
                if text_lt(before[b - 1].kind@, g.kind@) {
                    lemma_text_lt_transitive(before[b - 1].kind@, g.kind@, before[j as int].kind@);
                    if b - 1 == j {
                        lemma_text_lt_irreflexive(before[j as int].kind@);
                    }
                }
            } else {
                assert(after[a] == before[a - 1] && after[b] == before[b - 1]);
            }
        }
    }
    j
}

/// The table of component kinds: filled once at startup, then only read.
pub struct Registry {
    items: Vec<ComponentMethods>,
}

impl Registry {
    pub closed spec fn entries(&self) -> Seq<ComponentMethods> {
        self.items@
    }

    pub open spec fn wf(&self) -> bool {
        unique_kinds(self.entries())
    }

    /// The entry that a lookup of the kind identifier finds.
    pub open spec fn spec_lookup(&self, key: Seq<char>) -> Option<ComponentMethods> {
        let i = kind_index(self.entries(), key);
        if i < 0 {
            None
        } else {
            Some(self.entries()[i])
        }
    }

    /// An empty table.
    pub fn new() -> (r: Self)
        ensures
            r.wf(),
            r.entries().len() == 0,
    {
        Registry { items: Vec::new() }
    }

    /// Adds an entry under its kind identifier, in place of an earlier entry of that kind.
    pub fn register(&mut self, item: ComponentMethods)
        requires
            old(self).wf(),
        ensures
            final(self).wf(),
            final(self).entries() == with_registered(old(self).entries(), item),
    {
        let ghost entries = self.items@;
        let ghost it = item;
        proof {
            lemma_kind_index(entries, item.info.kind_uuid@);
        }
        match self.position(&item.info.kind_uuid) {
            Some(i) => {
                self.items.remove(i);
                self.items.insert(i, item);
                proof {
                    assert(self.items@ =~= entries.update(i as int, it));
                }
            },
            None => {
                self.items.push(item);
            },
        }
    }

    fn position(&self, kind_uuid: &String) -> (r: Option<usize>)
        ensures
            match r {
                Some(i) => i < self.entries().len() && i as int == kind_index(self.entries(), kind_uuid@),
                None => kind_index(self.entries(), kind_uuid@) < 0,
            },
    {
        let mut i: usize = self.items.len();
        proof {
            assert(self.items@.subrange(0, i as int) =~= self.items@);
        }
        while i > 0
            invariant
                i <= self.items@.len(),
                kind_index(self.items@, kind_uuid@) == kind_index(
                    self.items@.subrange(0, i as int),
                    kind_uuid@,
                ),
            decreases i,
        {
            proof {
                assert(self.items@.subrange(0, i as int).drop_last() =~= self.items@.subrange(
                    0,
                    i - 1,
                ));
            }
            i = i - 1;
            if self.items[i].info.kind_uuid == *kind_uuid {
                return Some(i);
            }
        }
        None
    }

    /// The entry registered under the kind identifier.
    pub fn lookup(&self, kind_uuid: &String) -> (r: Option<&ComponentMethods>)
        ensures
            match self.spec_lookup(kind_uuid@) {
                Some(m) => r matches Some(x) && *x == m,
                None => r is None,
            },
    {
        match self.position(kind_uuid) {
            Some(i) => Some(&self.items[i]),
            None => None,
        }
    }

    /// The description of every registered kind, by ascending display name.
    pub fn list_kinds(&self) -> (r: Vec<CmsComponentInfo>)
        requires
            self.wf(),
        ensures
            r@.len() == self.entries().len(),
            sorted_by_kind(r@),
            distinct_kinds(r@),
            forall|j: int|
                0 <= j < r@.len() ==> shows_some_entry(
                    self.entries(),
                    self.entries().len() as int,
                    #[trigger] r@[j],
                ),
            forall|k: int|
                0 <= k < self.entries().len() ==> entry_listed(r@, #[trigger] self.entries()[k]),
    {
        let ghost entries = self.items@;
        let mut out: Vec<CmsComponentInfo> = Vec::new();
        let mut i: usize = 0;
        while i < self.items.len()
            invariant
                i <= entries.len(),
                entries == self.items@,
                out@.len() == i,
                unique_kinds(entries),
                sorted_by_kind(out@),
                distinct_kinds(out@),
                forall|j: int|
                    0 <= j < out@.len() ==> shows_some_entry(entries, i as int, #[trigger] out@[j]),
                forall|k: int| 0 <= k < i ==> entry_listed(out@, #[trigger] entries[k]),
            decreases entries.len() - i,
        {
            let info = CmsComponentInfo {
                kind: self.items[i].info.kind.clone(),
                kind_uuid: self.items[i].info.kind_uuid.clone(),
            };
            let ghost before = out@;
            let ghost new_info = info;
            proof {
                reveal(shows_some_entry);
                assert forall|m: int| 0 <= m < before.len() implies before[m].kind_uuid@
                    != new_info.kind_uuid@ by {
                    assert(shows_some_entry(entries, i as int, before[m]));
                    let k = choose|k: int| 0 <= k < i && shows_info(before[m], entries[k]);
                    assert(entries[k].info.kind_uuid@ != entries[i as int].info.kind_uuid@);
                }
            }
            let j = insert_by_kind(&mut out, info);
            proof {
                reveal(shows_some_entry);
                reveal(entry_listed);
                let after = out@;
                assert forall|a: int, b: int| 0 <= a < b < after.len() implies after[a].kind_uuid@
                    != after[b].kind_uuid@ by {
                    if b < j {
                        assert(after[a] == before[a] && after[b] == before[b]);
                    } else if b == j {
                        assert(after[a] == before[a] && after[b] == new_info);
                    } else if a < j {
                        assert(after[a] == before[a] && after[b] == before[b - 1]);
                    } else if a == j {
                        assert(after[a] == new_info && after[b] == before[b - 1]);
                    } else {
                        assert(after[a] == before[a - 1] && after[b] == before[b - 1]);
                    }
                }
                let after = out@;
                assert forall|m: int| 0 <= m < after.len() implies shows_some_entry(
                    entries,
                    i + 1,
                    #[trigger] after[m],
                ) by {
                    if m < j {
                        assert(after[m] == before[m]);
                        assert(shows_some_entry(entries, i as int, before[m]));
                    } else if m == j {
                        assert(shows_info(after[m], entries[i as int]));
                    } else {
                        assert(after[m] == before[m - 1]);
                        assert(shows_some_entry(entries, i as int, before[m - 1]));
                    }
                }
                assert forall|k: int| 0 <= k < i + 1 implies entry_listed(
                    after,
                    #[trigger] entries[k],
                ) by {
                    if k == i {
                        assert(shows_info(after[j as int], entries[k]));
                    } else {
                        assert(entry_listed(before, entries[k]));
                        let m0 = choose|m: int| 0 <= m < before.len() && shows_info(before[m], entries[k]);
                        if m0 < j {
                            assert(shows_info(after[m0], entries[k]));
                        } else {
                            assert(shows_info(after[m0 + 1], entries[k]));
                        }
                    }
                }
            }
            i = i + 1;
        }
        out
    }
}

/// Looking a kind up finds the one entry registered under it, whenever one is: the same
/// entry on every lookup.
pub proof fn lemma_lookup_registered(reg: &Registry, key: Seq<char>, i: int)
    requires
        reg.wf(),
        0 <= i < reg.entries().len(),
        reg.entries()[i].info.kind_uuid@ == key,
    ensures
        reg.spec_lookup(key) == Some(reg.entries()[i]),
{
    lemma_kind_index(reg.entries(), key);
    let k = kind_index(reg.entries(), key);
    if k != i {
        if k < i {
            assert(reg.entries()[k].info.kind_uuid@ != reg.entries()[i].info.kind_uuid@);
        } else {
            assert(reg.entries()[i].info.kind_uuid@ != reg.entries()[k].info.kind_uuid@);
        }
    }
}

/// The registry entry of markdown components.
pub fn markdown_registry_item() -> (r: ComponentMethods)
    ensures
        r.kind == ComponentKind::Markdown,
        r.info.kind@ == MarkdownComponent::spec_kind(),
        r.info.kind_uuid@ == MarkdownComponent::spec_kind_uuid(),
{
    ComponentMethods { info: MarkdownComponent::component_info(), kind: ComponentKind::Markdown }
}

/// The registry entry of file-attachment components.
pub fn file_attachments_registry_item() -> (r: ComponentMethods)
    ensures
        r.kind == ComponentKind::FileAttachments,
        r.info.kind@ == FileAttachmentsComponent::spec_kind(),
        r.info.kind_uuid@ == FileAttachmentsComponent::spec_kind_uuid(),
{
    ComponentMethods {
        info: FileAttachmentsComponent::component_info(),
        kind: ComponentKind::FileAttachments,
    }
}

/// The registry of the kinds this system offers: markdown and file attachments.
pub fn registry() -> (r: Registry)
    ensures
        r.wf(),
        r.entries().len() == 2,
        r.entries()[0].kind == ComponentKind::Markdown,
        r.entries()[0].info.kind@ == MarkdownComponent::spec_kind(),
        r.entries()[0].info.kind_uuid@ == MarkdownComponent::spec_kind_uuid(),
        r.entries()[1].kind == ComponentKind::FileAttachments,
        r.entries()[1].info.kind@ == FileAttachmentsComponent::spec_kind(),
        r.entries()[1].info.kind_uuid@ == FileAttachmentsComponent::spec_kind_uuid(),
{
    let mut r = Registry::new();
    r.register(markdown_registry_item());
    proof {
        reveal_strlit("3191d0cc-0f3f-4a7c-b81a-dcfee22e524b");
        reveal_strlit("8a810f99-772c-4f52-91ed-72a4560cf6d0");
    }
    let ghost one = r.entries();
    r.register(file_attachments_registry_item());
    proof {
        assert(one[0].info.kind_uuid@[0] != FileAttachmentsComponent::spec_kind_uuid()[0]);
        assert(kind_index(one.drop_last(), FileAttachmentsComponent::spec_kind_uuid()) == -1);
    }
    r
}

/// The description of every kind this system offers, by ascending display name.
pub fn registry_item() -> (r: Vec<CmsComponentInfo>)
    ensures
        r@.len() == 2,
        r@[0].kind@ == FileAttachmentsComponent::spec_kind(),
        r@[0].kind_uuid@ == FileAttachmentsComponent::spec_kind_uuid(),
        r@[1].kind@ == MarkdownComponent::spec_kind(),
        r@[1].kind_uuid@ == MarkdownComponent::spec_kind_uuid(),
{
    let reg = registry();
    let r = reg.list_kinds();
    proof {
        reveal(entry_listed);
        reveal_strlit("Markdown");
        reveal_strlit("File Attachments");
        let entries = reg.entries();
        assert(entry_listed(r@, entries[0]));
        assert(entry_listed(r@, entries[1]));
        let jm = choose|j: int| 0 <= j < r@.len() && shows_info(r@[j], entries[0]);
        let jf = choose|j: int| 0 <= j < r@.len() && shows_info(r@[j], entries[1]);
        assert(entries[0].info.kind@[0] != entries[1].info.kind@[0]);
        assert(jm != jf);
        assert(text_lt(FileAttachmentsComponent::spec_kind(), MarkdownComponent::spec_kind()));
        if jm == 0 {
            assert(!text_lt(r@[1].kind@, r@[0].kind@));
        }
        assert(jf == 0 && jm == 1);
    }
    r
}

} // verus!
