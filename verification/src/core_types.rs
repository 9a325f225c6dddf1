//! Core protocol types: roles, task states, transport protocols, message
//! parts, task status and messages.

use vstd::prelude::*;
use crate::json::{JsonValue, JsonData, Metadata};
use crate::text::{owned, str_eq, concat2};
use crate::copy::{clone_vec, clone_opt, clone_opt_vec};
use crate::ids::{new_uuid_string, now_rfc3339};

verus! {

/// The location of the API key for authentication.
#[derive(Debug, Clone, Copy, PartialEq, Eq, Structural)]
pub enum In {
    Cookie,
    Header,
    Query,
}

/// Identifies the sender of a message.
#[derive(Debug, Clone, Copy, PartialEq, Eq, Structural)]
pub enum Role {
    User,
    Agent,
}

/// The lifecycle states of a task.
#[derive(Debug, Clone, Copy, PartialEq, Eq, Structural)]
pub enum TaskState {
    Submitted,
    Working,
    InputRequired,
    Completed,
    Canceled,
    Failed,
    Rejected,
    AuthRequired,
    Unknown,
}

/// The A2A transport protocols.
#[derive(Debug, Clone, Copy, PartialEq, Eq, Structural, Hash)]
pub enum TransportProtocol {
    Jsonrpc,
    Grpc,
    HttpJson,
}

impl DeepView for Role {
    type V = Role;

    open spec fn deep_view(&self) -> Role {
        *self
    }
}

impl DeepView for TaskState {
    type V = TaskState;

    open spec fn deep_view(&self) -> TaskState {
        *self
    }
}

impl DeepView for TransportProtocol {
    type V = TransportProtocol;

    open spec fn deep_view(&self) -> TransportProtocol {
        *self
    }
}

/// The upper-case form of a string as `str::to_uppercase` computes it.
pub uninterp spec fn unicode_uppercase(s: Seq<char>) -> Seq<char>;

/// Whether every character of `s` is ASCII.
pub open spec fn is_ascii_text(s: Seq<char>) -> bool {
    forall|i: int| 0 <= i < s.len() ==> (s[i] as u32) < 128
}

/// A character with an ASCII lower-case letter replaced by its capital.
pub open spec fn ascii_upper_char(c: char) -> char {
    if 'a' <= c && c <= 'z' {
        ((c as u32) - 32) as char
    } else {
        c
    }
}

/// `s` with each ASCII lower-case letter replaced by its capital.
pub open spec fn ascii_uppercase(s: Seq<char>) -> Seq<char> {
    s.map_values(|c: char| ascii_upper_char(c))
}

/// Upper-cases `s` with `str::to_uppercase`. The result is a function of
/// `s` alone, which the contract names; of ASCII text the contract states
/// it, as std documents it: each lower-case letter becomes its capital and
/// every other character stays.
#[verifier::external_body]
pub(crate) fn to_uppercase(s: &str) -> (r: String)
    ensures
        r@ == unicode_uppercase(s@),
        is_ascii_text(s@) ==> r@ == ascii_uppercase(s@),
{
    s.to_uppercase()
}

impl TransportProtocol {
    /// The wire label of a transport protocol.
    pub open spec fn spec_label(self) -> Seq<char> {
        match self {
            TransportProtocol::Jsonrpc => "JSONRPC"@,
            TransportProtocol::Grpc => "GRPC"@,
            TransportProtocol::HttpJson => "HTTP_JSON"@,
        }
    }

    /// The protocol whose label is exactly `label`.
    pub open spec fn spec_from_label(label: Seq<char>) -> Option<TransportProtocol> {
        if label == "JSONRPC"@ {
            Some(TransportProtocol::Jsonrpc)
        } else if label == "GRPC"@ {
            Some(TransportProtocol::Grpc)
        } else if label == "HTTP_JSON"@ {
            Some(TransportProtocol::HttpJson)
        } else {
            None
        }
    }

    /// The protocol that a label names in any letter case.
    pub open spec fn spec_parse(s: Seq<char>) -> Option<TransportProtocol> {
        Self::spec_from_label(unicode_uppercase(s))
    }

    /// The wire label of this protocol, as its `Display` impl writes it.
    pub fn label(&self) -> (r: &'static str)
        ensures
            r@ == self.spec_label(),
    {
        match self {
            TransportProtocol::Jsonrpc => "JSONRPC",
            TransportProtocol::Grpc => "GRPC",
            TransportProtocol::HttpJson => "HTTP_JSON",
        }
    }

    /// The wire label of this protocol as an owned string.
    pub fn to_string(&self) -> (r: String)
        ensures
            r@ == self.spec_label(),
    {
        owned(self.label())
    }

    /// The protocol whose label is exactly `label` (already upper-cased).
    pub fn from_label(label: &str) -> (r: Option<TransportProtocol>)
        ensures
            r == Self::spec_from_label(label@),
    {
        proof {
            reveal_strlit("JSONRPC");
            reveal_strlit("GRPC");
            reveal_strlit("HTTP_JSON");
        }
        if str_eq(label, "JSONRPC") {
            Some(TransportProtocol::Jsonrpc)
        } else if str_eq(label, "GRPC") {
            Some(TransportProtocol::Grpc)
        } else if str_eq(label, "HTTP_JSON") {
            Some(TransportProtocol::HttpJson)
        } else {
            None
        }
    }

    /// Parses a protocol label in any letter case; the error names the
    /// input: "Unknown transport protocol: {s}".
    pub fn from_str(s: &str) -> (r: Result<TransportProtocol, String>)
        ensures
            r is Ok == Self::spec_parse(s@) is Some,
            r matches Ok(p) ==> Some(p) == Self::spec_parse(s@),
            r matches Err(m) ==> m@ == "Unknown transport protocol: "@ + s@,
            is_ascii_text(s@) ==> (r is Ok <==> Self::spec_from_label(ascii_uppercase(s@)) is Some),
            is_ascii_text(s@) ==> (r matches Ok(p) ==> Self::spec_from_label(ascii_uppercase(s@)) == Some(p)),
    {
        let upper = to_uppercase(s);
        match Self::from_label(upper.as_str()) {
            Some(p) => Ok(p),
            None => Err(concat2("Unknown transport protocol: ", s)),
        }
    }
}

/// Every protocol's label parses back to that protocol.
pub proof fn law_label_round_trip(p: TransportProtocol)
    ensures
        TransportProtocol::spec_from_label(p.spec_label()) == Some(p),
{
    reveal_strlit("JSONRPC");
    reveal_strlit("GRPC");
    reveal_strlit("HTTP_JSON");
    assert("JSONRPC"@.len() == 7);
    assert("GRPC"@.len() == 4);
    assert("HTTP_JSON"@.len() == 9);
}

/// The content of a text part.
pub struct TextPartData {
    pub text: Seq<char>,
    pub kind: Seq<char>,
    pub metadata: Option<Map<Seq<char>, JsonData>>,
}

/// A text segment within a message or artifact.
#[derive(Debug)]
pub struct TextPart {
    pub text: String,
    pub kind: String,
    pub metadata: Option<Metadata>,
}

impl DeepView for TextPart {
    type V = TextPartData;

    open spec fn deep_view(&self) -> TextPartData {
        TextPartData { text: self.text@, kind: self.kind@, metadata: self.metadata.deep_view() }
    }
}

impl Clone for TextPart {
    fn clone(&self) -> (r: Self)
        ensures
            r.deep_view() == self.deep_view(),
    {
        TextPart { text: self.text.clone(), kind: self.kind.clone(), metadata: clone_opt(&self.metadata) }
    }
}

impl TextPart {
    /// A text part with kind "text" and no metadata.
    pub fn new(text: String) -> (r: Self)
        ensures
            r.deep_view() == (TextPartData { text: text@, kind: "text"@, metadata: None }),
    {
        TextPart { text, kind: owned("text"), metadata: None }
    }

    /// This part with the given metadata.
    pub fn with_metadata(self, metadata: Metadata) -> (r: Self)
        ensures
            r.deep_view() == (TextPartData { metadata: Some(metadata.view()), ..self.deep_view() }),
    {
        TextPart { metadata: Some(metadata), ..self }
    }
}

/// The content of a structured-data part.
pub struct DataPartData {
    pub data: JsonData,
    pub kind: Seq<char>,
    pub metadata: Option<Map<Seq<char>, JsonData>>,
}

/// A structured data segment (e.g. JSON) within a message or artifact.
#[derive(Debug)]
pub struct DataPart {
    pub data: JsonValue,
    pub kind: String,
    pub metadata: Option<Metadata>,
}

impl DeepView for DataPart {
    type V = DataPartData;

    open spec fn deep_view(&self) -> DataPartData {
        DataPartData { data: self.data.deep_view(), kind: self.kind@, metadata: self.metadata.deep_view() }
    }
}

impl Clone for DataPart {
    fn clone(&self) -> (r: Self)
        ensures
            r.deep_view() == self.deep_view(),
    {
        DataPart { data: self.data.clone(), kind: self.kind.clone(), metadata: clone_opt(&self.metadata) }
    }
}

impl DataPart {
    /// A data part with kind "data" and no metadata.
    pub fn new(data: JsonValue) -> (r: Self)
        ensures
            r.deep_view() == (DataPartData { data: data.deep_view(), kind: "data"@, metadata: None }),
    {
        DataPart { data, kind: owned("data"), metadata: None }
    }

    /// This part with the given metadata.
    pub fn with_metadata(self, metadata: Metadata) -> (r: Self)
        ensures
            r.deep_view() == (DataPartData { metadata: Some(metadata.view()), ..self.deep_view() }),
    {
        DataPart { metadata: Some(metadata), ..self }
    }
}

/// Base properties of a file.
#[derive(Debug)]
pub struct FileBase {
    pub mime_type: Option<String>,
    pub name: Option<String>,
}

/// The content of a file given either by URI or inline.
pub struct FileData {
    pub uri: Option<Seq<char>>,
    pub bytes: Option<Seq<char>>,
    pub mime_type: Option<Seq<char>>,
    pub name: Option<Seq<char>>,
}

/// A file whose content is given inline as a base64 string.
#[derive(Debug)]
pub struct FileWithBytes {
    pub bytes: String,
    pub mime_type: Option<String>,
    pub name: Option<String>,
}

/// A file whose content is located at a URI.
#[derive(Debug)]
pub struct FileWithUri {
    pub uri: String,
    pub mime_type: Option<String>,
    pub name: Option<String>,
}

/// The ways to provide file content.
#[derive(Debug)]
pub enum FileContent {
    Uri(FileWithUri),
    Bytes(FileWithBytes),
}

impl DeepView for FileContent {
    type V = FileData;

    open spec fn deep_view(&self) -> FileData {
        match self {
            FileContent::Uri(f) => FileData {
                uri: Some(f.uri@),
                bytes: None,
                mime_type: f.mime_type.deep_view(),
                name: f.name.deep_view(),
            },
            FileContent::Bytes(f) => FileData {
                uri: None,
                bytes: Some(f.bytes@),
                mime_type: f.mime_type.deep_view(),
                name: f.name.deep_view(),
            },
        }
    }
}

impl Clone for FileContent {
    fn clone(&self) -> (r: Self)
        ensures
            r.deep_view() == self.deep_view(),
    {
        match self {
            FileContent::Uri(f) => FileContent::Uri(FileWithUri {
                uri: f.uri.clone(),
                mime_type: clone_opt(&f.mime_type),
                name: clone_opt(&f.name),
            }),
            FileContent::Bytes(f) => FileContent::Bytes(FileWithBytes {
                bytes: f.bytes.clone(),
                mime_type: clone_opt(&f.mime_type),
                name: clone_opt(&f.name),
            }),
        }
    }
}

/// The content of a file part.
pub struct FilePartData {
    pub file: FileData,
    pub kind: Seq<char>,
    pub metadata: Option<Map<Seq<char>, JsonData>>,
}

/// A file segment within a message or artifact.
#[derive(Debug)]
pub struct FilePart {
    pub file: FileContent,
    pub kind: String,
    pub metadata: Option<Metadata>,
}

impl DeepView for FilePart {
    type V = FilePartData;

    open spec fn deep_view(&self) -> FilePartData {
        FilePartData { file: self.file.deep_view(), kind: self.kind@, metadata: self.metadata.deep_view() }
    }
}

impl Clone for FilePart {
    fn clone(&self) -> (r: Self)
        ensures
            r.deep_view() == self.deep_view(),
    {
        FilePart { file: self.file.clone(), kind: self.kind.clone(), metadata: clone_opt(&self.metadata) }
    }
}

impl FilePart {
    /// A file part referring to `uri`, the text of a URL.
    pub fn new_uri(uri: String) -> (r: Self)
        ensures
            r.deep_view() == (FilePartData {
                file: FileData { uri: Some(uri@), bytes: None, mime_type: None, name: None },
                kind: "file"@,
                metadata: None,
            }),
    {
        FilePart {
            file: FileContent::Uri(FileWithUri { uri, mime_type: None, name: None }),
            kind: owned("file"),
            metadata: None,
        }
    }

    /// A file part carrying base64 `bytes` inline.
    pub fn new_bytes(bytes: String) -> (r: Self)
        ensures
            r.deep_view() == (FilePartData {
                file: FileData { uri: None, bytes: Some(bytes@), mime_type: None, name: None },
                kind: "file"@,
                metadata: None,
            }),
    {
        FilePart {
            file: FileContent::Bytes(FileWithBytes { bytes, mime_type: None, name: None }),
            kind: owned("file"),
            metadata: None,
        }
    }

    /// This part with the given metadata.
    pub fn with_metadata(self, metadata: Metadata) -> (r: Self)
        ensures
            r.deep_view() == (FilePartData { metadata: Some(metadata.view()), ..self.deep_view() }),
    {
        FilePart { metadata: Some(metadata), ..self }
    }
}

/// The content of a part.
pub enum PartData {
    Text(TextPartData),
    File(FilePartData),
    Data(DataPartData),
}

/// The part kinds that a `Part` wraps.
#[derive(Debug)]
pub enum PartRoot {
    Text(TextPart),
    File(FilePart),
    Data(DataPart),
}

impl DeepView for PartRoot {
    type V = PartData;

    open spec fn deep_view(&self) -> PartData {
        match self {
            PartRoot::Text(p) => PartData::Text(p.deep_view()),
            PartRoot::File(p) => PartData::File(p.deep_view()),
            PartRoot::Data(p) => PartData::Data(p.deep_view()),
        }
    }
}

impl Clone for PartRoot {
    fn clone(&self) -> (r: Self)
        ensures
            r.deep_view() == self.deep_view(),
    {
        match self {
            PartRoot::Text(p) => PartRoot::Text(p.clone()),
            PartRoot::File(p) => PartRoot::File(p.clone()),
            PartRoot::Data(p) => PartRoot::Data(p.clone()),
        }
    }
}

/// Where the content of a part lies in its JSON object: a first member
/// "root" holds it, and must be the only member; otherwise the object is
/// the content itself. An empty object, or a value that is not an object,
/// is refused with the reason.
pub open spec fn part_layout_of(v: JsonData) -> Result<Option<JsonData>, Seq<char>> {
    match v {
        JsonData::Object(members) => if members.len() == 0 {
            Err("empty object"@)
        } else if members[0].0 == "root"@ {
            if members.len() > 1 {
                Err("unexpected additional fields after 'root'"@)
            } else {
                Ok(Some(members[0].1))
            }
        } else {
            Ok(None)
        },
        _ => Err("expected a part object with either 'root' field or direct content"@),
    }
}

/// Reads the layout of a part's JSON (see `part_layout_of`): the wrapped
/// content when the part has a "root" member, `None` when the object is
/// the content.
pub fn part_layout(v: &JsonValue) -> (r: Result<Option<&JsonValue>, String>)
    ensures
        r is Ok <==> part_layout_of(v.deep_view()) is Ok,
        r matches Ok(None) ==> part_layout_of(v.deep_view()) == Ok::<Option<JsonData>, Seq<char>>(None),
        r matches Ok(Some(x)) ==> part_layout_of(v.deep_view()) == Ok::<Option<JsonData>, Seq<char>>(Some(x.deep_view())),
        r matches Err(m) ==> part_layout_of(v.deep_view()) == Err::<Option<JsonData>, Seq<char>>(m@),
{
    match v {
        JsonValue::Object(members) => {
            proof {
                crate::json::lemma_member_seq_data_props(members@);
            }
            if members.len() == 0 {
                Err(owned("empty object"))
            } else if str_eq(members[0].0.as_str(), "root") {
                if members.len() > 1 {
                    Err(owned("unexpected additional fields after 'root'"))
                } else {
                    Ok(Some(&members[0].1))
                }
            } else {
                Ok(None)
            }
        },
        _ => Err(owned("expected a part object with either 'root' field or direct content")),
    }
}

/// The content of a `Part`, remembering whether it was wrapped in a
/// "root" object.
pub struct PartView {
    pub wrapped: bool,
    pub root: PartData,
}

/// A part of a message or artifact, either wrapped as `{"root": ...}` or
/// given directly.
#[derive(Debug)]
pub enum Part {
    WithRoot { root: PartRoot },
    Direct(PartRoot),
}

impl DeepView for Part {
    type V = PartView;

    open spec fn deep_view(&self) -> PartView {
        match self {
            Part::WithRoot { root } => PartView { wrapped: true, root: root.deep_view() },
            Part::Direct(root) => PartView { wrapped: false, root: root.deep_view() },
        }
    }
}

impl Clone for Part {
    fn clone(&self) -> (r: Self)
        ensures
            r.deep_view() == self.deep_view(),
    {
        match self {
            Part::WithRoot { root } => Part::WithRoot { root: root.clone() },
            Part::Direct(root) => Part::Direct(root.clone()),
        }
    }
}

impl Part {
    /// A direct text part.
    pub fn text(text: String) -> (r: Self)
        ensures
            r.deep_view() == (PartView {
                wrapped: false,
                root: PartData::Text(TextPartData { text: text@, kind: "text"@, metadata: None }),
            }),
    {
        Part::Direct(PartRoot::Text(TextPart::new(text)))
    }

    /// A direct file part referring to `uri`.
    pub fn file_uri(uri: String) -> (r: Self)
        ensures
            r.deep_view() == (PartView {
                wrapped: false,
                root: PartData::File(FilePartData {
                    file: FileData { uri: Some(uri@), bytes: None, mime_type: None, name: None },
                    kind: "file"@,
                    metadata: None,
                }),
            }),
    {
        Part::Direct(PartRoot::File(FilePart::new_uri(uri)))
    }

    /// A direct file part carrying base64 `bytes`.
    pub fn file_bytes(bytes: String) -> (r: Self)
        ensures
            r.deep_view() == (PartView {
                wrapped: false,
                root: PartData::File(FilePartData {
                    file: FileData { uri: None, bytes: Some(bytes@), mime_type: None, name: None },
                    kind: "file"@,
                    metadata: None,
                }),
            }),
    {
        Part::Direct(PartRoot::File(FilePart::new_bytes(bytes)))
    }

    /// A direct data part.
    pub fn data(data: JsonValue) -> (r: Self)
        ensures
            r.deep_view() == (PartView {
                wrapped: false,
                root: PartData::Data(DataPartData { data: data.deep_view(), kind: "data"@, metadata: None }),
            }),
    {
        Part::Direct(PartRoot::Data(DataPart::new(data)))
    }

    /// The wrapped part, whichever way it was given.
    pub fn root(&self) -> (r: &PartRoot)
        ensures
            r.deep_view() == self.deep_view().root,
    {
        match self {
            Part::WithRoot { root } => root,
            Part::Direct(root) => root,
        }
    }

    /// A direct part wrapping a text part.
    pub fn from_text(p: TextPart) -> (r: Self)
        ensures
            r.deep_view() == (PartView { wrapped: false, root: PartData::Text(p.deep_view()) }),
    {
        Part::Direct(PartRoot::Text(p))
    }

    /// A direct part wrapping a file part.
    pub fn from_file(p: FilePart) -> (r: Self)
        ensures
            r.deep_view() == (PartView { wrapped: false, root: PartData::File(p.deep_view()) }),
    {
        Part::Direct(PartRoot::File(p))
    }

    /// A direct part wrapping a data part.
    pub fn from_data(p: DataPart) -> (r: Self)
        ensures
            r.deep_view() == (PartView { wrapped: false, root: PartData::Data(p.deep_view()) }),
    {
        Part::Direct(PartRoot::Data(p))
    }
}

/// Base properties common to all parts.
pub struct PartBase {
    pub metadata: Option<Metadata>,
}

/// The content of a message.
pub struct MessageData {
    pub message_id: Seq<char>,
    pub context_id: Option<Seq<char>>,
    pub task_id: Option<Seq<char>>,
    pub role: Role,
    pub parts: Seq<PartView>,
    pub metadata: Option<Map<Seq<char>, JsonData>>,
    pub extensions: Option<Seq<Seq<char>>>,
    pub reference_task_ids: Option<Seq<Seq<char>>>,
    pub kind: Seq<char>,
}

/// A message exchanged between a user and an agent.
#[derive(Debug)]
pub struct Message {
    pub message_id: String,
    pub context_id: Option<String>,
    pub task_id: Option<String>,
    pub role: Role,
    pub parts: Vec<Part>,
    pub metadata: Option<Metadata>,
    pub extensions: Option<Vec<String>>,
    pub reference_task_ids: Option<Vec<String>>,
    pub kind: String,
}

impl DeepView for Message {
    type V = MessageData;

    open spec fn deep_view(&self) -> MessageData {
        MessageData {
            message_id: self.message_id@,
            context_id: self.context_id.deep_view(),
            task_id: self.task_id.deep_view(),
            role: self.role,
            parts: self.parts.deep_view(),
            metadata: self.metadata.deep_view(),
            extensions: self.extensions.deep_view(),
            reference_task_ids: self.reference_task_ids.deep_view(),
            kind: self.kind@,
        }
    }
}

impl Clone for Message {
    fn clone(&self) -> (r: Self)
        ensures
            r.deep_view() == self.deep_view(),
    {
        Message {
            message_id: self.message_id.clone(),
            context_id: clone_opt(&self.context_id),
            task_id: clone_opt(&self.task_id),
            role: self.role,
            parts: clone_vec(&self.parts),
            metadata: clone_opt(&self.metadata),
            extensions: clone_opt_vec(&self.extensions),
            reference_task_ids: clone_opt_vec(&self.reference_task_ids),
            kind: self.kind.clone(),
        }
    }
}

impl Message {
    /// A new message with a fresh random id and kind "message".
    pub fn new(role: Role, parts: Vec<Part>) -> (r: Self)
        ensures
            r.role == role,
            r.parts.deep_view() == parts.deep_view(),
            r.context_id is None,
            r.task_id is None,
            r.metadata is None,
            r.extensions is None,
            r.reference_task_ids is None,
            r.kind@ == "message"@,
            crate::ids::uuid_canonical_text(r.message_id@) == Some(r.message_id@),
    {
        Message {
            message_id: new_uuid_string(),
            context_id: None,
            task_id: None,
            role,
            parts,
            metadata: None,
            extensions: None,
            reference_task_ids: None,
            kind: owned("message"),
        }
    }

    /// This message with the given id.
    pub fn with_message_id(self, message_id: String) -> (r: Self)
        ensures
            r.deep_view() == (MessageData { message_id: message_id@, ..self.deep_view() }),
    {
        Message { message_id, ..self }
    }

    /// This message with the given context id.
    pub fn with_context_id(self, context_id: String) -> (r: Self)
        ensures
            r.deep_view() == (MessageData { context_id: Some(context_id@), ..self.deep_view() }),
    {
        Message { context_id: Some(context_id), ..self }
    }

    /// This message with the given task id.
    pub fn with_task_id(self, task_id: String) -> (r: Self)
        ensures
            r.deep_view() == (MessageData { task_id: Some(task_id@), ..self.deep_view() }),
    {
        Message { task_id: Some(task_id), ..self }
    }

    /// This message with the given metadata.
    pub fn with_metadata(self, metadata: Metadata) -> (r: Self)
        ensures
            r.deep_view() == (MessageData { metadata: Some(metadata.view()), ..self.deep_view() }),
    {
        Message { metadata: Some(metadata), ..self }
    }
}

/// The content of a task status.
pub struct TaskStatusData {
    pub state: TaskState,
    pub message: Option<MessageData>,
    pub timestamp: Option<Seq<char>>,
}

/// The status of a task at a point in time.
#[derive(Debug)]
pub struct TaskStatus {
    pub state: TaskState,
    pub message: Option<Box<Message>>,
    pub timestamp: Option<String>,
}

impl DeepView for TaskStatus {
    type V = TaskStatusData;

    open spec fn deep_view(&self) -> TaskStatusData {
        TaskStatusData {
            state: self.state,
            message: match self.message {
                Some(m) => Some(m.deep_view()),
                None => None,
            },
            timestamp: self.timestamp.deep_view(),
        }
    }
}

impl Clone for TaskStatus {
    fn clone(&self) -> (r: Self)
        ensures
            r.deep_view() == self.deep_view(),
    {
        TaskStatus {
            state: self.state,
            message: match &self.message {
                Some(m) => Some(Box::new((**m).clone())),
                None => None,
            },
            timestamp: clone_opt(&self.timestamp),
        }
    }
}

impl TaskStatus {
    /// A status in `state`, stamped with the current time, with no message.
    pub fn new(state: TaskState) -> (r: Self)
        ensures
            r.state == state,
            r.message is None,
            r.timestamp is Some,
    {
        TaskStatus { state, message: None, timestamp: Some(now_rfc3339()) }
    }

    /// This status with the given message.
    pub fn with_message(self, message: Message) -> (r: Self)
        ensures
            r.deep_view() == (TaskStatusData { message: Some(message.deep_view()), ..self.deep_view() }),
    {
        TaskStatus { message: Some(Box::new(message)), ..self }
    }

    /// This status with the given timestamp.
    pub fn with_timestamp(self, timestamp: String) -> (r: Self)
        ensures
            r.deep_view() == (TaskStatusData { timestamp: Some(timestamp@), ..self.deep_view() }),
    {
        TaskStatus { timestamp: Some(timestamp), ..self }
    }
}

} // verus!
