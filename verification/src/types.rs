//! Types of the MCP tool protocol and of each tool's parameters.

use vstd::prelude::*;

verus! {

/// One item of a tool's reply.
#[derive(Debug, Clone)]
pub enum ContentItem {
    /// Text content.
    Text { text: String },
}

impl View for ContentItem {
    type V = Seq<char>;

    /// The text that the item carries.
    open spec fn view(&self) -> Seq<char> {
        match self {
            ContentItem::Text { text } => text@,
        }
    }
}

/// A tool's reply: the list of its content items.
#[derive(Debug, Clone)]
pub struct ToolResponse {
    /// The content items, in order.
    pub content: Vec<ContentItem>,
}

impl View for ToolResponse {
    type V = Seq<Seq<char>>;

    /// The texts of the content items, in order.
    open spec fn view(&self) -> Seq<Seq<char>> {
        self.content@.map_values(|c: ContentItem| c@)
    }
}

impl ToolResponse {
    /// A reply that holds one text item.
    pub fn text(text: &str) -> (r: Self)
        ensures
            r@ == seq![text@],
            r.content@.len() == 1,
            r.content@[0]->text@ == text@,
    {
        let item = ContentItem::Text { text: text.to_owned() };
        let r = ToolResponse { content: vec![item] };
        assert(r@ =~= seq![text@]);
        r
    }

    /// A reply that holds one text item per given text, in the given order.
    pub fn texts(texts: Vec<String>) -> (r: Self)
        ensures
            r@ == texts@.map_values(|t: String| t@),
            r.content@.len() == texts@.len(),
            forall|i: int|
                0 <= i < texts@.len() ==> #[trigger] r.content@[i]->text@ == texts@[i]@,
    {
        let ghost given = texts@;
        let mut content: Vec<ContentItem> = Vec::new();
        for text in it: texts.into_iter()
            invariant
                it.seq() == given,
                content@.len() == it.index(),
                forall|j: int| 0 <= j < it.index() ==> #[trigger] content@[j]->text@ == given[j]@,
        {
            content.push(ContentItem::Text { text });
        }
        let r = ToolResponse { content };
        assert(r@ =~= given.map_values(|t: String| t@));
        r
    }
}

/// A JSON value, as `serde_json` holds it; carried through unread.
#[verifier::external_type_specification]
#[verifier::external_body]
pub struct ExJsonValue(serde_json::Value);

/// The definition of an MCP tool.
#[derive(Debug)]
pub struct ToolDefinition {
    /// The tool's name.
    pub name: String,
    /// What the tool does.
    pub description: String,
    /// The JSON Schema of the tool's input.
    pub input_schema: serde_json::Value,
}

/// Parameters of the `open_windbg_dump` tool.
#[derive(Debug)]
pub struct OpenWindbgDumpParams {
    /// Path of the dump file.
    pub dump_path: String,
    /// Whether to include the stack trace.
    pub include_stack_trace: bool,
    /// Whether to include the module list.
    pub include_modules: bool,
    /// Whether to include the thread list.
    pub include_threads: bool,
}

/// Parameters of the `open_windbg_remote` tool.
#[derive(Debug)]
pub struct OpenWindbgRemoteParams {
    /// Remote connection string (for example `tcp:Port=5005,Server=192.168.0.100`).
    pub connection_string: String,
    /// Whether to include the stack trace.
    pub include_stack_trace: bool,
    /// Whether to include the module list.
    pub include_modules: bool,
    /// Whether to include the thread list.
    pub include_threads: bool,
}

/// The error message of a `run_windbg_cmd` request that names no session.
pub const NO_SESSION_SOURCE_MESSAGE: &'static str =
    "One of dump_path, connection_string, or program_path must be provided";

/// The error message of a `run_windbg_cmd` request that names more than one session.
pub const CONFLICTING_SESSION_SOURCES_MESSAGE: &'static str =
    "dump_path, connection_string, and program_path are mutually exclusive";

/// Parameters of the `run_windbg_cmd` tool.
#[derive(Debug)]
pub struct RunWindbgCmdParams {
    /// Path of the dump file (exclusive with `connection_string` and `program_path`).
    pub dump_path: Option<String>,
    /// Remote connection string (exclusive with `dump_path` and `program_path`).
    pub connection_string: Option<String>,
    /// Path of the target program (exclusive with `dump_path` and `connection_string`).
    pub program_path: Option<String>,
    /// The WinDbg command to run.
    pub command: String,
}

/// The text of an optional parameter, as a sequence of zero or one texts.
pub open spec fn given_text(o: Option<String>) -> Seq<Seq<char>> {
    match o {
        Some(s) => seq![s@],
        None => Seq::empty(),
    }
}

impl RunWindbgCmdParams {
    /// The session sources that the request provides, in the order
    /// `dump_path`, `connection_string`, `program_path`.
    pub open spec fn provided_sources(self) -> Seq<Seq<char>> {
        given_text(self.dump_path) + given_text(self.connection_string) + given_text(
            self.program_path,
        )
    }

    /// Whether exactly one of three conditions holds.
    pub open spec fn exactly_one(a: bool, b: bool, c: bool) -> bool {
        (a && !b && !c) || (!a && b && !c) || (!a && !b && c)
    }

    /// Checks that exactly one of `dump_path`, `connection_string` and
    /// `program_path` is given.
    pub fn validate(&self) -> (r: Result<(), String>)
        ensures
            r is Ok <==> self.provided_sources().len() == 1,
            self.provided_sources().len() == 0 ==> (r matches Err(e) && e@
                == NO_SESSION_SOURCE_MESSAGE@),
            self.provided_sources().len() >= 2 ==> (r matches Err(e) && e@
                == CONFLICTING_SESSION_SOURCES_MESSAGE@),
            r is Ok <==> Self::exactly_one(
                self.dump_path is Some,
                self.connection_string is Some,
                self.program_path is Some,
            ),
            (self.dump_path is None && self.connection_string is None && self.program_path is None)
                ==> (r matches Err(e) && e@ == NO_SESSION_SOURCE_MESSAGE@),
            ((self.dump_path is Some && self.connection_string is Some) || (self.dump_path is Some
                && self.program_path is Some) || (self.connection_string is Some
                && self.program_path is Some)) ==> (r matches Err(e) && e@
                == CONFLICTING_SESSION_SOURCES_MESSAGE@),
    {
        let mut count: usize = 0;
        if self.dump_path.is_some() {
            count = count + 1;
        }
        if self.connection_string.is_some() {
            count = count + 1;
        }
        if self.program_path.is_some() {
            count = count + 1;
        }
        assert(count == self.provided_sources().len());
        match count {
            0 => Err(NO_SESSION_SOURCE_MESSAGE.to_owned()),
            1 => Ok(()),
            _ => Err(CONFLICTING_SESSION_SOURCES_MESSAGE.to_owned()),
        }
    }

    /// The session that the request names: the dump path, else the
    /// connection string, else the program path.
    pub open spec fn spec_session_identifier(self) -> Option<Seq<char>> {
        if self.provided_sources().len() > 0 {
            Some(self.provided_sources()[0])
        } else {
            None
        }
    }

    /// Returns the session identifier: the dump path, the connection string
    /// or the program path, the first of them that is given.
    pub fn session_identifier(&self) -> (r: Option<&str>)
        ensures
            r.deep_view() == self.spec_session_identifier(),
            self.dump_path is Some ==> r.deep_view() == Some(self.dump_path->0@),
            self.dump_path is None && self.connection_string is Some ==> r.deep_view() == Some(
                self.connection_string->0@,
            ),
            self.dump_path is None && self.connection_string is None && self.program_path is Some
                ==> r.deep_view() == Some(self.program_path->0@),
            self.dump_path is None && self.connection_string is None && self.program_path is None
                ==> r is None,
    {
        match &self.dump_path {
            Some(d) => Some(d.as_str()),
            None => match &self.connection_string {
                Some(c) => Some(c.as_str()),
                None => match &self.program_path {
                    Some(p) => Some(p.as_str()),
                    None => None,
                },
            },
        }
    }
}

/// A request that passes `validate` names exactly one session, and
/// `session_identifier` gives that session; `session_identifier` finds no
/// session exactly when `validate` reports that none is provided.
pub proof fn lemma_validated_request_identifies_its_session(p: RunWindbgCmdParams)
    ensures
        p.provided_sources().len() == 1 ==> (p.spec_session_identifier() matches Some(id)
            && p.provided_sources() == seq![id]),
        p.spec_session_identifier() is None <==> p.provided_sources().len() == 0,
{
    if p.provided_sources().len() == 1 {
        assert(p.provided_sources() =~= seq![p.provided_sources()[0]]);
    }
}

/// The sources a request provides are its given fields, one per field that
/// is present, in the order dump path, connection string, program path; so
/// their number is the number of those fields that are present, and the
/// texts of the other fields never count.
pub proof fn lemma_provided_sources_are_the_given_fields(p: RunWindbgCmdParams)
    ensures
        p.provided_sources().len() == (if p.dump_path is Some { 1int } else { 0int }) + (
        if p.connection_string is Some { 1int } else { 0int }) + (if p.program_path is Some {
            1int
        } else {
            0int
        }),
        p.dump_path is Some ==> p.provided_sources()[0] == p.dump_path->0@,
        p.dump_path is None && p.connection_string is Some ==> p.provided_sources()[0]
            == p.connection_string->0@,
        p.dump_path is None && p.connection_string is None && p.program_path is Some
            ==> p.provided_sources()[0] == p.program_path->0@,
{
}

/// A request is valid exactly when one of its three session fields is
/// present; with none present it is refused as naming no session, with two
/// or more as naming conflicting sessions.
pub proof fn lemma_validity_depends_on_present_fields(p: RunWindbgCmdParams)
    ensures
        p.provided_sources().len() == 1 <==> RunWindbgCmdParams::exactly_one(
            p.dump_path is Some,
            p.connection_string is Some,
            p.program_path is Some,
        ),
        p.provided_sources().len() == 0 <==> (p.dump_path is None && p.connection_string is None
            && p.program_path is None),
        p.provided_sources().len() >= 2 <==> ((p.dump_path is Some && p.connection_string is Some)
            || (p.dump_path is Some && p.program_path is Some) || (p.connection_string is Some
            && p.program_path is Some)),
{
}

/// The session a request names is its dump path when that is present, else
/// its connection string when that is present, else its program path, and
/// none when all three are absent, whatever else the request holds.
pub proof fn lemma_session_identifier_precedence(p: RunWindbgCmdParams)
    ensures
        p.dump_path is Some ==> p.spec_session_identifier() == Some(p.dump_path->0@),
        p.dump_path is None && p.connection_string is Some ==> p.spec_session_identifier() == Some(
            p.connection_string->0@,
        ),
        p.dump_path is None && p.connection_string is None && p.program_path is Some
            ==> p.spec_session_identifier() == Some(p.program_path->0@),
        p.dump_path is None && p.connection_string is None && p.program_path is None
            ==> p.spec_session_identifier() is None,
{
}

/// Giving `texts` a single text makes the same reply as `text` of it.
pub proof fn lemma_texts_of_one_is_text(t: String)
    ensures
        seq![t].map_values(|s: String| s@) == seq![t@],
{
    assert(seq![t].map_values(|s: String| s@) =~= seq![t@]);
}

/// Parameters of the `launch_debug` tool.
#[derive(Debug)]
pub struct LaunchDebugParams {
    /// Path of the target program (required).
    pub program_path: String,
    /// Command-line arguments.
    pub arguments: Option<Vec<String>>,
    /// Working directory.
    pub working_directory: Option<String>,
    /// Symbol search path.
    pub symbols_path: Option<String>,
    /// Source search path.
    pub source_path: Option<String>,
    /// Whether to include the stack trace.
    pub include_stack_trace: bool,
    /// Whether to include the module list.
    pub include_modules: bool,
}

/// Parameters of the `close_debug` tool.
#[derive(Debug)]
pub struct CloseDebugParams {
    /// Path of the target program.
    pub program_path: String,
}

/// Parameters of the `close_windbg_dump` tool.
#[derive(Debug)]
pub struct CloseWindbgDumpParams {
    /// Path of the dump file to close.
    pub dump_path: String,
}

/// Parameters of the `close_windbg_remote` tool.
#[derive(Debug)]
pub struct CloseWindbgRemoteParams {
    /// The remote connection string to close.
    pub connection_string: String,
}

/// Parameters of the `list_windbg_dumps` tool.
#[derive(Debug)]
pub struct ListWindbgDumpsParams {
    /// Directory to search (when absent, the system's dump directory).
    pub directory_path: Option<String>,
    /// Whether to search subdirectories too.
    pub recursive: bool,
}

} // verus!
