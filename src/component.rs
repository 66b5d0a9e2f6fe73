use vstd::prelude::*;

verus! {

/// Display name and stable identifier of a component kind.
#[derive(Debug, Clone)]
pub struct CmsComponentInfo {
    pub kind: String,
    pub kind_uuid: String,
}

impl CmsComponentInfo {
    /// A copy with the same texts.
    pub fn clone_info(&self) -> (r: Self)
        ensures
            r.kind@ == self.kind@,
            r.kind_uuid@ == self.kind_uuid@,
    {
        CmsComponentInfo { kind: self.kind.clone(), kind_uuid: self.kind_uuid.clone() }
    }
}

/// Raised when stored bytes cannot be turned back into a payload.
#[derive(Debug, Clone, Copy, PartialEq, Eq, Structural)]
pub enum CodecError {
    /// The stored bytes are not a payload of the expected kind.
    Desync,
}

/// A kind's payload: how it becomes the opaque bytes of a component row, and back.
pub trait ComponentDataMarker: Sized + View {
    /// The bytes that stand for a payload with the given view.
    spec fn encoded(v: Self::V) -> Seq<u8>;

    /// The payloads whose bytes decode back to them.
    spec fn round_trips(v: Self::V) -> bool;

    fn into_data(self) -> (r: Vec<u8>)
        ensures
            r@ == Self::encoded(self@),
    ;

    /// Decoding the bytes of an encoded payload gives that payload back.
    fn from_data(data: &Vec<u8>) -> (r: Result<Self, CodecError>)
        ensures
            forall|v: Self::V|
                Self::round_trips(v) && #[trigger] Self::encoded(v) == data@ ==> (r matches Ok(w)
                    && w@ == v),
    ;
}

/// A kind's fixed description in the registry.
pub trait ComponentInfoMarker {
    spec fn spec_kind() -> Seq<char>;

    spec fn spec_kind_uuid() -> Seq<char>;

    fn component_info() -> (r: CmsComponentInfo)
        ensures
            r.kind@ == Self::spec_kind(),
            r.kind_uuid@ == Self::spec_kind_uuid(),
    ;
}

/// The encoding of two strings as one MessagePack array of two strings.
pub uninterp spec fn msgpack_str_pair(a: Seq<char>, b: Seq<char>) -> Seq<u8>;

/// Relies on rmp_serde::to_vec: a pair of strings is written into a growing `Vec` as a
/// MessagePack array of two strings, which depends on the two strings alone; writing
/// strings into a `Vec` reports no error (but for the allocator failing, which this library
/// treats as fatal everywhere).
#[verifier::external_body]
fn encode_str_pair(a: &String, b: &String) -> (r: Option<Vec<u8>>)
    ensures
        r is Some && r->Some_0@ == msgpack_str_pair(a@, b@),
{
    rmp_serde::to_vec(&(a, b)).ok()
}

/// The strings whose MessagePack length header holds their byte length: under 2^30
/// characters, hence under 2^32 bytes.
pub open spec fn fits_str_header(s: Seq<char>) -> bool {
    s.len() < 0x4000_0000
}

/// Relies on rmp_serde::from_slice: bytes that rmp_serde::to_vec wrote for a pair of
/// strings whose lengths fit the header are read back as the same pair.
#[verifier::external_body]
fn decode_str_pair(data: &Vec<u8>) -> (r: Option<(String, String)>)
    ensures
        forall|a: Seq<char>, b: Seq<char>|
            fits_str_header(a) && fits_str_header(b) && #[trigger] msgpack_str_pair(a, b)
                == data@ ==> r is Some && r->Some_0.0@ == a && r->Some_0.1@ == b,
{
    rmp_serde::from_slice::<(String, String)>(data.as_slice()).ok()
}

/// Payload of a markdown block: its source and its rendered form.
#[derive(Debug, Clone)]
pub struct MarkdownComponent {
    pub content: String,
    pub parse_html: String,
}

/// The two texts of a markdown payload.
pub struct MarkdownView {
    pub content: Seq<char>,
    pub parse_html: Seq<char>,
}

impl View for MarkdownComponent {
    type V = MarkdownView;

    open spec fn view(&self) -> MarkdownView {
        MarkdownView { content: self.content@, parse_html: self.parse_html@ }
    }
}

impl ComponentDataMarker for MarkdownComponent {
    open spec fn encoded(v: MarkdownView) -> Seq<u8> {
        msgpack_str_pair(v.content, v.parse_html)
    }

    open spec fn round_trips(v: MarkdownView) -> bool {
        fits_str_header(v.content) && fits_str_header(v.parse_html)
    }

    fn into_data(self) -> (r: Vec<u8>) {
        match encode_str_pair(&self.content, &self.parse_html) {
            Some(d) => d,
            None => Vec::new(),
        }
    }

    fn from_data(data: &Vec<u8>) -> (r: Result<Self, CodecError>) {
        match decode_str_pair(data) {
            Some((content, parse_html)) => Ok(MarkdownComponent { content, parse_html }),
            None => Err(CodecError::Desync),
        }
    }
}

impl ComponentInfoMarker for MarkdownComponent {
    open spec fn spec_kind() -> Seq<char> {
        "Markdown"@
    }

    open spec fn spec_kind_uuid() -> Seq<char> {
        "3191d0cc-0f3f-4a7c-b81a-dcfee22e524b"@
    }

    fn component_info() -> (r: CmsComponentInfo) {
        CmsComponentInfo {
            kind: "Markdown".to_string(),
            kind_uuid: "3191d0cc-0f3f-4a7c-b81a-dcfee22e524b".to_string(),
        }
    }
}

/// Payload of a file-attachment block: it carries nothing, its files are rows of their own.
#[derive(Debug, Clone, Copy)]
pub struct FileAttachmentsComponent;

impl View for FileAttachmentsComponent {
    type V = ();

    open spec fn view(&self) -> () {
        ()
    }
}

impl ComponentDataMarker for FileAttachmentsComponent {
    open spec fn encoded(v: ()) -> Seq<u8> {
        Seq::empty()
    }

    open spec fn round_trips(v: ()) -> bool {
        true
    }

    fn into_data(self) -> (r: Vec<u8>) {
        Vec::new()
    }

    /// Every byte sequence reads as the empty payload.
    fn from_data(data: &Vec<u8>) -> (r: Result<Self, CodecError>)
        ensures
            r is Ok,
    {
        Ok(FileAttachmentsComponent)
    }
}

impl ComponentInfoMarker for FileAttachmentsComponent {
    open spec fn spec_kind() -> Seq<char> {
        "File Attachments"@
    }

    open spec fn spec_kind_uuid() -> Seq<char> {
        "8a810f99-772c-4f52-91ed-72a4560cf6d0"@
    }

    fn component_info() -> (r: CmsComponentInfo) {
        CmsComponentInfo {
            kind: "File Attachments".to_string(),
            kind_uuid: "8a810f99-772c-4f52-91ed-72a4560cf6d0".to_string(),
        }
    }
}

} // verus!
