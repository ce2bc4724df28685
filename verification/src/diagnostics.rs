use vstd::prelude::*;

use crate::text::str_eq;

verus! {

/// Severity of a diagnostics event.
#[derive(Debug, Clone, Copy, PartialEq, Eq, Structural)]
pub enum DiagnosticLevel {
    Info,
    Warning,
    Error,
}

impl DiagnosticLevel {
    pub open spec fn label_spec(self) -> &'static str {
        match self {
            DiagnosticLevel::Info => "INFO",
            DiagnosticLevel::Warning => "WARN",
            DiagnosticLevel::Error => "ERROR",
        }
    }

    pub fn label(self) -> (r: &'static str)
        ensures
            r == self.label_spec(),
    {
        match self {
            DiagnosticLevel::Info => "INFO",
            DiagnosticLevel::Warning => "WARN",
            DiagnosticLevel::Error => "ERROR",
        }
    }
}

/// The subsystem a diagnostics event comes from.
#[derive(Debug, Clone, Copy, PartialEq, Eq, Structural)]
pub enum DiagnosticCategory {
    Lifecycle,
    Startup,
    Profile,
    Input,
    Packet,
    Apply,
    Telemetry,
    Safety,
    Error,
}

impl DiagnosticCategory {
    pub open spec fn label_spec(self) -> &'static str {
        match self {
            DiagnosticCategory::Lifecycle => "LIFECYCLE",
            DiagnosticCategory::Startup => "STARTUP",
            DiagnosticCategory::Profile => "PROFILE",
            DiagnosticCategory::Input => "INPUT",
            DiagnosticCategory::Packet => "PACKET",
            DiagnosticCategory::Apply => "APPLY",
            DiagnosticCategory::Telemetry => "TELEMETRY",
            DiagnosticCategory::Safety => "SAFETY",
            DiagnosticCategory::Error => "ERROR",
        }
    }

    pub fn label(self) -> (r: &'static str)
        ensures
            r == self.label_spec(),
    {
        match self {
            DiagnosticCategory::Lifecycle => "LIFECYCLE",
            DiagnosticCategory::Startup => "STARTUP",
            DiagnosticCategory::Profile => "PROFILE",
            DiagnosticCategory::Input => "INPUT",
            DiagnosticCategory::Packet => "PACKET",
            DiagnosticCategory::Apply => "APPLY",
            DiagnosticCategory::Telemetry => "TELEMETRY",
            DiagnosticCategory::Safety => "SAFETY",
            DiagnosticCategory::Error => "ERROR",
        }
    }
}

/// A named value attached to a diagnostics event.
#[derive(Debug, Clone, PartialEq, Eq)]
pub struct DiagnosticField {
    pub key: String,
    pub value: String,
}

impl DiagnosticField {
    pub fn new(key: &str, value: &str) -> (r: Self)
        ensures
            r.key@ == key@,
            r.value@ == value@,
    {
        DiagnosticField { key: key.to_owned(), value: value.to_owned() }
    }
}

/// One entry of the bridge's diagnostics log.
#[derive(Debug, Clone, PartialEq, Eq)]
pub struct BridgeDiagnosticEvent {
    pub timestamp_ms: u64,
    pub level: DiagnosticLevel,
    pub category: DiagnosticCategory,
    pub message: String,
    pub fields: Vec<DiagnosticField>,
}

/// The value of the first field named `key`, if any.
pub open spec fn field_lookup(fields: Seq<DiagnosticField>, key: Seq<char>) -> Option<Seq<char>>
    decreases fields.len(),
{
    if fields.len() == 0 {
        None
    } else if fields[0].key@ == key {
        Some(fields[0].value@)
    } else {
        field_lookup(fields.drop_first(), key)
    }
}

impl BridgeDiagnosticEvent {
    pub fn field_value(&self, key: &str) -> (r: Option<&str>)
        ensures
            match r {
                Some(v) => field_lookup(self.fields@, key@) == Some(v@),
                None => field_lookup(self.fields@, key@) is None,
            },
    {
        let mut i: usize = 0;
        assert(self.fields@.skip(0) =~= self.fields@);
        while i < self.fields.len()
            invariant
                i <= self.fields@.len(),
                field_lookup(self.fields@, key@) == field_lookup(self.fields@.skip(i as int), key@),
            decreases self.fields@.len() - i,
        {
            assert(self.fields@.skip(i as int)[0] == self.fields@[i as int]);
            if str_eq(self.fields[i].key.as_str(), key) {
                return Some(self.fields[i].value.as_str());
            }
            assert(self.fields@.skip(i as int).drop_first() =~= self.fields@.skip(i + 1));
            i += 1;
        }
        None
    }
}

/// `key=value` for one field.
pub open spec fn field_pair(field: DiagnosticField) -> Seq<char> {
    field.key@ + "="@ + field.value@
}

/// The fields' pairs, separated by `, `.
pub open spec fn joined_fields(fields: Seq<DiagnosticField>) -> Seq<char>
    decreases fields.len(),
{
    if fields.len() == 0 {
        Seq::empty()
    } else if fields.len() == 1 {
        field_pair(fields[0])
    } else {
        joined_fields(fields.drop_last()) + ", "@ + field_pair(fields.last())
    }
}

/// The one-line rendering of an event: `CATEGORY / LEVEL: message`, followed by ` | ` and the
/// fields' pairs when the event has fields.
pub open spec fn event_line(event: BridgeDiagnosticEvent) -> Seq<char> {
    let head = event.category.label_spec()@ + " / "@ + event.level.label_spec()@ + ": "@
        + event.message@;
    if event.fields@.len() == 0 {
        head
    } else {
        head + " | "@ + joined_fields(event.fields@)
    }
}

pub fn format_event(event: &BridgeDiagnosticEvent) -> (r: String)
    ensures
        r@ == event_line(*event),
{
    let mut line = String::new();
    line.append(event.category.label());
    line.append(" / ");
    line.append(event.level.label());
    line.append(": ");
    line.append(event.message.as_str());
    if event.fields.len() > 0 {
        line.append(" | ");
        let ghost prefix = line@;
        let mut i: usize = 0;
        while i < event.fields.len()
            invariant
                i <= event.fields@.len(),
                event.fields@.len() > 0,
                line@ == prefix + joined_fields(event.fields@.take(i as int)),
            decreases event.fields@.len() - i,
        {
            proof {
                let t = event.fields@.take(i + 1);
                assert(t.drop_last() =~= event.fields@.take(i as int));
                assert(t.last() == event.fields@[i as int]);
            }
            if i > 0 {
                line.append(", ");
            }
            line.append(event.fields[i].key.as_str());
            line.append("=");
            line.append(event.fields[i].value.as_str());
            proof {
                let t = event.fields@.take(i + 1);
                if i == 0 {
                    assert(joined_fields(t) == field_pair(t[0]));
                    assert(joined_fields(event.fields@.take(0)) =~= Seq::<char>::empty());
                }
                assert(line@ =~= prefix + joined_fields(t));
            }
            i += 1;
        }
        assert(event.fields@.take(event.fields@.len() as int) =~= event.fields@);
    }
    assert(line@ =~= event_line(*event));
    line
}

/// The last `limit` events, all of them when there are no more than `limit`.
pub fn keep_recent(events: Vec<BridgeDiagnosticEvent>, limit: usize) -> (r: Vec<BridgeDiagnosticEvent>)
    ensures
        events@.len() > limit ==> r@ == events@.skip(events@.len() - limit),
        events@.len() <= limit ==> r@ == events@,
{
    let mut events = events;
    if events.len() > limit {
        let start = events.len() - limit;
        let tail = events.split_off(start);
        tail
    } else {
        events
    }
}

/// The parent of a path, as the platform's path syntax defines it: `None` for a root or an
/// empty path.
pub uninterp spec fn path_parent(path: Seq<char>) -> Option<Seq<char>>;

/// A path extended by one more component, as the platform's path syntax defines it.
pub uninterp spec fn path_join(base: Seq<char>, component: Seq<char>) -> Seq<char>;

/// The parent directory of a path.
///
/// Trusted: calls `std::path::Path::parent` on the path and converts the result back to a
/// string (the conversion is exact, as the path came from a string). The contract says only
/// that the result is the value `path_parent` names for this path.
#[verifier::external_body]
fn parent_of(path: &str) -> (r: Option<String>)
    ensures
        match r {
            Some(p) => path_parent(path@) == Some(p@),
            None => path_parent(path@) is None,
        },
{
    match std::path::Path::new(path).parent() {
        Some(parent) => Some(parent.to_string_lossy().into_owned()),
        None => None,
    }
}

/// A path with one more component.
///
/// Trusted: calls `std::path::Path::join` and converts the result back to a string (exact, as
/// both parts came from strings). The contract says only that the result is the value
/// `path_join` names for these arguments.
#[verifier::external_body]
fn join_path(base: &str, component: &str) -> (r: String)
    ensures
        r@ == path_join(base@, component@),
{
    std::path::Path::new(base).join(component).to_string_lossy().into_owned()
}

/// The name of the directory that holds exported sessions.
pub open spec fn archive_dir_name() -> Seq<char> {
    "bridge-diagnostics-sessions"@
}

/// The live diagnostics log of the bridge, a JSON-lines file.
#[derive(Debug, Clone)]
pub struct DiagnosticsLog {
    path: String,
}

impl DiagnosticsLog {
    pub closed spec fn path_spec(&self) -> Seq<char> {
        self.path@
    }

    pub fn new(path: &str) -> (r: Self)
        ensures
            r.path_spec() == path@,
    {
        DiagnosticsLog { path: path.to_owned() }
    }

    pub fn path(&self) -> (r: &str)
        ensures
            r@ == self.path_spec(),
    {
        self.path.as_str()
    }

    /// The directory for exported sessions: `bridge-diagnostics-sessions` beside the live log,
    /// or relative to the working directory when the log's path has no parent.
    pub open spec fn archive_dir_spec(&self) -> Seq<char> {
        match path_parent(self.path_spec()) {
            Some(parent) => path_join(parent, archive_dir_name()),
            None => archive_dir_name(),
        }
    }

    pub fn archive_dir(&self) -> (r: String)
        ensures
            r@ == self.archive_dir_spec(),
    {
        let name = "bridge-diagnostics-sessions";
        match parent_of(self.path.as_str()) {
            Some(parent) => join_path(parent.as_str(), name),
            None => name.to_owned(),
        }
    }
}

} // verus!
