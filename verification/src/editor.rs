use vstd::prelude::*;
use crate::diagnostics::DiagnosticsLog;
use crate::inputs::WinmmDeviceInfo;
use crate::text::{
    append_decimal_u64, decimal_digits, eq_ignore_ascii_case, eq_ignore_ascii_case_spec,
    decimal_int, find_char, find_char_from, is_digit_char, is_whitespace, is_whitespace_char,
    lemma_decimal_digits_value, lemma_parse_decimal_round_trip, leading_whitespace, parse_i32,
    parse_i32_spec, push_char, trailing_whitespace, trim, trimmed,
};

verus! {

/// The label of a device in the steering-device list: `NAME [WinMM #ID]`.
pub open spec fn device_label_text(device: WinmmDeviceInfo) -> Seq<char> {
    device.name@ + " [WinMM #"@ + decimal_digits(device.id as nat) + "]"@
}

/// The position of the first device with the given id.
pub open spec fn device_position(devices: Seq<WinmmDeviceInfo>, id: u32) -> Option<int> {
    if exists|i: int| 0 <= i < devices.len() && devices[i].id == id {
        Some(
            choose|i: int|
                0 <= i < devices.len() && devices[i].id == id && forall|j: int|
                    0 <= j < i ==> devices[j].id != id,
        )
    } else {
        None
    }
}

/// The label of the entry that stands for no steering device.
pub open spec fn no_device_label() -> Seq<char> {
    "No steering device"@
}

/// The WinMM devices that the editor offers as steering inputs, and why the list is empty when
/// it could not be read.
#[derive(Debug, Clone)]
pub struct DeviceCatalog {
    pub devices: Vec<WinmmDeviceInfo>,
    pub load_error: Option<String>,
}

fn device_label(device: &WinmmDeviceInfo) -> (r: String)
    ensures
        r@ == device_label_text(*device),
{
    let mut out = String::new();
    out.append(device.name.as_str());
    out.append(" [WinMM #");
    append_decimal_u64(&mut out, device.id as u64);
    out.append("]");
    assert(out@ =~= device_label_text(*device));
    out
}

impl DeviceCatalog {
    /// The catalog for the outcome of listing the devices: the devices, or no device and the
    /// listing's error message.
    pub fn from_listing(listing: Result<Vec<WinmmDeviceInfo>, String>) -> (r: Self)
        ensures
            match listing {
                Ok(devices) => r.devices@ == devices@ && r.load_error is None,
                Err(message) => r.devices@.len() == 0 && r.load_error == Some(message),
            },
    {
        match listing {
            Ok(devices) => DeviceCatalog { devices, load_error: None },
            Err(message) => DeviceCatalog { devices: Vec::new(), load_error: Some(message) },
        }
    }

    fn position_of(&self, id: u32) -> (r: Option<usize>)
        ensures
            match r {
                Some(i) => i < self.devices@.len() && device_position(self.devices@, id) == Some(
                    i as int,
                ),
                None => device_position(self.devices@, id) is None,
            },
    {
        let mut i: usize = 0;
        while i < self.devices.len()
            invariant
                i <= self.devices@.len(),
                forall|j: int| 0 <= j < i ==> self.devices@[j].id != id,
            decreases self.devices@.len() - i,
        {
            if self.devices[i].id == id {
                proof {
                    let k = choose|k: int|
                        0 <= k < self.devices@.len() && self.devices@[k].id == id && forall|j: int|
                            0 <= j < k ==> self.devices@[j].id != id;
                    assert(self.devices@[i as int].id == id);
                    if k < i {
                    } else if k > i {
                    }
                }
                return Some(i);
            }
            i += 1;
        }
        None
    }

    /// The row of a device in the option list, where row 0 is "no steering device".
    pub open spec fn selected_index_spec(&self, device_id: Option<u32>) -> int {
        match device_id {
            None => 0,
            Some(id) => match device_position(self.devices@, id) {
                Some(i) => i + 1,
                None => 0,
            },
        }
    }

    /// The row to select for a device: one past its position, 0 when there is none or it is not
    /// in the list.
    pub fn selected_index(&self, device_id: Option<u32>) -> (r: i32)
        requires
            self.devices@.len() < i32::MAX,
        ensures
            r == self.selected_index_spec(device_id),
    {
        match device_id {
            None => 0,
            Some(id) => match self.position_of(id) {
                Some(i) => i as i32 + 1,
                None => 0,
            },
        }
    }

    /// The device id behind a row of the option list: none for row 0 and rows past the end.
    pub fn device_id_for_index(&self, index: i32) -> (r: Option<u32>)
        ensures
            r == (if 1 <= index <= self.devices@.len() {
                Some(self.devices@[index - 1].id)
            } else {
                None::<u32>
            }),
    {
        if index < 1 {
            return None;
        }
        let row: usize = index as usize;
        if row > self.devices.len() {
            None
        } else {
            Some(self.devices[row - 1].id)
        }
    }

    /// The label shown for a device choice.
    pub open spec fn label_for_device_spec(&self, device_id: Option<u32>) -> Seq<char> {
        match device_id {
            None => no_device_label(),
            Some(id) => match device_position(self.devices@, id) {
                Some(i) => device_label_text(self.devices@[i]),
                None => "WinMM #"@ + decimal_digits(id as nat) + " (not found)"@,
            },
        }
    }

    pub fn label_for_device(&self, device_id: Option<u32>) -> (r: String)
        ensures
            r@ == self.label_for_device_spec(device_id),
    {
        match device_id {
            None => String::from_str("No steering device"),
            Some(id) => match self.position_of(id) {
                Some(i) => device_label(&self.devices[i]),
                None => {
                    let mut out = String::new();
                    out.append("WinMM #");
                    append_decimal_u64(&mut out, id as u64);
                    out.append(" (not found)");
                    assert(out@ =~= self.label_for_device_spec(device_id));
                    out
                },
            },
        }
    }

    /// The entries of the steering-device list: "no steering device", then each device's label.
    pub fn option_labels(&self) -> (r: Vec<String>)
        ensures
            r@.len() == self.devices@.len() + 1,
            r@[0]@ == no_device_label(),
            forall|i: int| 0 <= i < self.devices@.len() ==> #[trigger] r@[i + 1]@ == device_label_text(
                self.devices@[i],
            ),
    {
        let mut labels: Vec<String> = Vec::new();
        labels.push(String::from_str("No steering device"));
        let mut i: usize = 0;
        while i < self.devices.len()
            invariant
                i <= self.devices@.len(),
                labels@.len() == i + 1,
                labels@[0]@ == no_device_label(),
                forall|j: int| 0 <= j < i ==> #[trigger] labels@[j + 1]@ == device_label_text(
                    self.devices@[j],
                ),
            decreases self.devices@.len() - i,
        {
            labels.push(device_label(&self.devices[i]));
            i += 1;
        }
        labels
    }

    /// The note shown under an empty device list.
    pub open spec fn empty_message_spec(&self) -> Seq<char> {
        if self.devices@.len() == 0 {
            match self.load_error {
                Some(error) => "Device names unavailable: "@ + error@,
                None => "No WinMM devices found."@,
            }
        } else {
            Seq::empty()
        }
    }

    pub fn empty_message(&self) -> (r: String)
        ensures
            r@ == self.empty_message_spec(),
    {
        if self.devices.len() == 0 {
            match &self.load_error {
                Some(error) => {
                    let mut out = String::from_str("Device names unavailable: ");
                    out.append(error.as_str());
                    out
                },
                None => String::from_str("No WinMM devices found."),
            }
        } else {
            let r = String::new();
            assert(r@ =~= Seq::<char>::empty());
            r
        }
    }
}

/// Selecting a listed device and reading the device back from the selected row gives the same
/// device: a device listed first at position `i` is selected at row `i + 1`, and that row names
/// it.
pub proof fn lemma_selected_row_names_the_device(catalog: DeviceCatalog, id: u32, i: int)
    requires
        0 <= i < catalog.devices@.len(),
        catalog.devices@[i].id == id,
        forall|j: int| 0 <= j < i ==> catalog.devices@[j].id != id,
    ensures
        catalog.selected_index_spec(Some(id)) == i + 1,
        catalog.devices@[catalog.selected_index_spec(Some(id)) - 1].id == id,
{
    let devices = catalog.devices@;
    let k = choose|k: int|
        0 <= k < devices.len() && devices[k].id == id && forall|j: int| 0 <= j < k ==> devices[j].id != id;
    if k < i {
    } else if k > i {
    }
    assert(device_position(devices, id) == Some(i));
}

/// How the editor describes the hot-reload setting.
pub fn hot_reload_summary(enabled: bool) -> (r: &'static str)
    ensures
        r@ == (if enabled {
            "On save"@
        } else {
            "Manual"@
        }),
{
    if enabled {
        "On save"
    } else {
        "Manual"
    }
}

/// The editor's first status line: a notice about the saved settings when there is one, and a
/// note when device names could not be read.
pub open spec fn initial_status_text(settings_notice: Option<Seq<char>>, devices_unavailable: bool) -> Seq<char> {
    match settings_notice {
        Some(notice) => if devices_unavailable {
            notice + " Device names unavailable."@
        } else {
            notice
        },
        None => if devices_unavailable {
            "Save writes the profile. Device names unavailable."@
        } else {
            "Save writes the profile."@
        },
    }
}

pub fn initial_status_message(settings_notice: Option<String>, device_catalog: &DeviceCatalog) -> (r: String)
    ensures
        r@ == initial_status_text(
            match settings_notice {
                Some(n) => Some(n@),
                None => None,
            },
            device_catalog.load_error is Some,
        ),
{
    let unavailable = device_catalog.load_error.is_some();
    match settings_notice {
        Some(notice) => {
            if unavailable {
                let mut out = notice;
                out.append(" Device names unavailable.");
                out
            } else {
                notice
            }
        },
        None => {
            if unavailable {
                String::from_str("Save writes the profile. Device names unavailable.")
            } else {
                String::from_str("Save writes the profile.")
            }
        },
    }
}

/// The labels of the built-in calibration presets, in the order the editor lists them.
pub open spec fn calibration_preset_label(index: int) -> Seq<char> {
    if index == 0 {
        "FFBeast Precision"@
    } else if index == 1 {
        "FFBeast Drift"@
    } else {
        "FFBeast Endurance"@
    }
}

/// The number of built-in calibration presets.
pub const CALIBRATION_PRESET_COUNT: i32 = 3;

/// The row of a preset in the preset list, where row 0 is "Custom": one past the first preset
/// whose label matches without regard to ASCII case, 0 when none does.
pub open spec fn calibration_preset_index_spec(label: Seq<char>) -> i32 {
    if eq_ignore_ascii_case_spec(calibration_preset_label(0), label) {
        1
    } else if eq_ignore_ascii_case_spec(calibration_preset_label(1), label) {
        2
    } else if eq_ignore_ascii_case_spec(calibration_preset_label(2), label) {
        3
    } else {
        0
    }
}

pub fn calibration_preset_index(label: &str) -> (r: i32)
    ensures
        r == calibration_preset_index_spec(label@),
{
    if eq_ignore_ascii_case("FFBeast Precision", label) {
        1
    } else if eq_ignore_ascii_case("FFBeast Drift", label) {
        2
    } else if eq_ignore_ascii_case("FFBeast Endurance", label) {
        3
    } else {
        0
    }
}

/// The number of steps of the calibration workflow.
pub const CALIBRATION_WORKFLOW_STEP_COUNT: i32 = 4;

pub fn calibration_workflow_step_count() -> (r: i32)
    ensures
        r == CALIBRATION_WORKFLOW_STEP_COUNT,
{
    CALIBRATION_WORKFLOW_STEP_COUNT
}

/// A workflow step index clamped to the steps that exist.
pub fn clamp_workflow_step(step: i32) -> (r: i32)
    ensures
        r == (if step < 0 {
            0
        } else if step > CALIBRATION_WORKFLOW_STEP_COUNT - 1 {
            CALIBRATION_WORKFLOW_STEP_COUNT - 1
        } else {
            step as int
        }),
{
    let last = calibration_workflow_step_count() - 1;
    if step < 0 {
        0
    } else if step > last {
        last
    } else {
        step
    }
}

/// The raw steering value inside the first pair of parentheses of a telemetry label such as
/// `+12% (36000)`.
pub open spec fn steering_raw_value_spec(text: Seq<char>) -> Option<i32> {
    match find_char_from(text, '(', 0) {
        None => None,
        Some(open) => match find_char_from(text, ')', open + 1) {
            None => None,
            Some(close) => parse_i32_spec(trimmed(text.subrange(open + 1, close))),
        },
    }
}

pub fn parse_steering_raw_value(text: &str) -> (r: Option<i32>)
    ensures
        r == steering_raw_value_spec(text@),
{
    let n = text.unicode_len();
    let open = match find_char(text, '(', 0) {
        Some(i) => i,
        None => return None,
    };
    let close = match find_char(text, ')', open + 1) {
        Some(i) => i,
        None => return None,
    };
    let inner = text.substring_char(open + 1, close);
    let cleaned = trim(inner);
    parse_i32(cleaned.as_str())
}

proof fn lemma_find_first(s: Seq<char>, c: char, from: int, k: int)
    requires
        0 <= from <= k < s.len(),
        s[k] == c,
        forall|j: int| from <= j < k ==> s[j] != c,
    ensures
        find_char_from(s, c, from) == Some(k),
{
    let w = choose|i: int| from <= i < s.len() && s[i] == c && forall|j: int| from <= j < i ==> s[j] != c;
    if w < k {
        assert(s[w] != c);
    } else if w > k {
        assert(s[k] != c);
    }
}

proof fn lemma_decimal_int_chars(v: i32)
    ensures
        decimal_int(v as int).len() >= 1,
        forall|i: int|
            0 <= i < decimal_int(v as int).len() ==> is_digit_char(#[trigger] decimal_int(v as int)[i])
                || decimal_int(v as int)[i] == '-',
{
    let s = decimal_int(v as int);
    if v < 0 {
        let d = crate::text::decimal_digits((-v) as nat);
        lemma_decimal_digits_value((-v) as nat);
        assert forall|i: int| 0 <= i < s.len() implies is_digit_char(#[trigger] s[i]) || s[i] == '-' by {
            if i > 0 {
                assert(s[i] == d[i - 1]);
            }
        }
    } else {
        lemma_decimal_digits_value(v as nat);
    }
}

proof fn lemma_trimmed_keeps_unpadded(s: Seq<char>)
    requires
        s.len() >= 1,
        !is_whitespace_char(s[0]),
        !is_whitespace_char(s.last()),
    ensures
        trimmed(s) == s,
{
    assert(leading_whitespace(s) == 0);
    assert(trailing_whitespace(s) == 0);
    assert(s.subrange(0, s.len() as int) =~= s);
}

/// A raw steering value written in parentheses after a label that holds no parenthesis is read
/// back exactly as it was written: the editor recovers the value that the bridge's telemetry
/// label carries.
pub proof fn lemma_steering_label_round_trip(label: Seq<char>, raw: i32)
    requires
        forall|i: int| 0 <= i < label.len() ==> label[i] != '(',
    ensures
        steering_raw_value_spec(label + seq!['('] + decimal_int(raw as int) + seq![')']) == Some(raw),
{
    let body = decimal_int(raw as int);
    let text = label + seq!['('] + body + seq![')'];
    let open = label.len() as int;
    let close = open + 1 + body.len();
    lemma_decimal_int_chars(raw);
    assert(text[open] == '(');
    assert forall|j: int| 0 <= j < open implies text[j] != '(' by {
        assert(text[j] == label[j]);
    }
    lemma_find_first(text, '(', 0, open);
    assert(text[close] == ')');
    assert forall|j: int| open + 1 <= j < close implies text[j] != ')' by {
        assert(text[j] == body[j - open - 1]);
        assert(is_digit_char(body[j - open - 1]) || body[j - open - 1] == '-');
    }
    lemma_find_first(text, ')', open + 1, close);
    assert(text.subrange(open + 1, close) =~= body);
    assert(is_digit_char(body[0]) || body[0] == '-');
    assert(is_digit_char(body.last()) || body.last() == '-');
    lemma_trimmed_keeps_unpadded(body);
    lemma_parse_decimal_round_trip(raw);
}

/// The steering device as the profile comparison names it.
pub fn steering_device_label_for_report(device: Option<u32>) -> (r: String)
    ensures
        r@ == (match device {
            Some(id) => "WinMM #"@ + decimal_digits(id as nat),
            None => "None"@,
        }),
{
    match device {
        Some(id) => {
            let mut out = String::from_str("WinMM #");
            append_decimal_u64(&mut out, id as u64);
            out
        },
        None => String::from_str("None"),
    }
}

/// A text with every whitespace character removed.
pub open spec fn without_whitespace(s: Seq<char>) -> Seq<char>
    decreases s.len(),
{
    if s.len() == 0 {
        s
    } else if is_whitespace_char(s.last()) {
        without_whitespace(s.drop_last())
    } else {
        without_whitespace(s.drop_last()).push(s.last())
    }
}

/// The characters that file names may not hold.
pub open spec fn is_reserved_filename_char(c: char) -> bool {
    c == '<' || c == '>' || c == ':' || c == '"' || c == '/' || c == '\\' || c == '|' || c == '?'
        || c == '*'
}

/// A character as it stands in a file name: reserved characters become `-`.
pub open spec fn filename_char(c: char) -> char {
    if is_reserved_filename_char(c) {
        '-'
    } else {
        c
    }
}

/// The file name for a profile: its name without whitespace, `profile` when nothing is left,
/// with reserved characters replaced by `-`, and `.json` appended.
pub open spec fn profile_filename(name: Seq<char>) -> Seq<char> {
    let compact = without_whitespace(name);
    if compact.len() == 0 {
        "profile.json"@
    } else {
        compact.map_values(|c: char| filename_char(c)) + ".json"@
    }
}

fn filename_char_of(c: char) -> (r: char)
    ensures
        r == filename_char(c),
{
    if c == '<' || c == '>' || c == ':' || c == '"' || c == '/' || c == '\\' || c == '|' || c
        == '?' || c == '*' {
        '-'
    } else {
        c
    }
}

pub fn profile_filename_from_name(profile_name: &str) -> (r: String)
    ensures
        r@ == profile_filename(profile_name@),
{
    let n = profile_name.unicode_len();
    let mut out = String::new();
    let mut kept = false;
    let mut i: usize = 0;
    while i < n
        invariant
            n == profile_name@.len(),
            i <= n,
            out@ == without_whitespace(profile_name@.take(i as int)).map_values(
                |c: char| filename_char(c),
            ),
            kept == (without_whitespace(profile_name@.take(i as int)).len() > 0),
        decreases n - i,
    {
        let c = profile_name.get_char(i);
        proof {
            let t = profile_name@.take(i + 1);
            assert(t.drop_last() =~= profile_name@.take(i as int));
            assert(t.last() == c);
        }
        if !is_whitespace(c) {
            push_char(&mut out, filename_char_of(c));
            kept = true;
            proof {
                let w = without_whitespace(profile_name@.take(i as int));
                assert(without_whitespace(profile_name@.take(i + 1)) == w.push(c));
                assert(out@ =~= w.push(c).map_values(|c: char| filename_char(c)));
            }
        }
        i += 1;
    }
    assert(profile_name@.take(n as int) =~= profile_name@);
    if !kept {
        String::from_str("profile.json")
    } else {
        out.append(".json");
        out
    }
}

/// The last component of a path, when it has one that is valid text.
pub uninterp spec fn path_file_name(path: Seq<char>) -> Option<Seq<char>>;

/// The file name of a path.
///
/// Trusted: calls `std::path::Path::file_name` and `OsStr::to_str`; the contract says only that
/// the result is the value `path_file_name` names for this path.
#[verifier::external_body]
fn file_name_of(path: &str) -> (r: Option<String>)
    ensures
        match r {
            Some(name) => path_file_name(path@) == Some(name@),
            None => path_file_name(path@) is None,
        },
{
    std::path::Path::new(path).file_name().and_then(|name| name.to_str()).map(|name| name.to_string())
}

/// How a replayed session is named: the file name of its log, or the whole path when it has
/// none.
pub open spec fn replay_label(path: Seq<char>) -> Seq<char> {
    match path_file_name(path) {
        Some(name) => name,
        None => path,
    }
}

pub fn replay_source_label(path: &str) -> (r: String)
    ensures
        r@ == replay_label(path@),
{
    match file_name_of(path) {
        Some(name) => name,
        None => path.to_owned(),
    }
}

/// Where the diagnostics panel reads events from.
#[derive(Debug, Clone)]
pub enum ObservabilitySource {
    /// The live log of the running bridge.
    Live,
    /// An exported session log at the given path.
    Replay(String),
}

/// Chooses between the live diagnostics log and a replayed session.
#[derive(Debug, Clone)]
pub struct ObservabilityController {
    live_log: DiagnosticsLog,
    source: ObservabilitySource,
}

impl ObservabilityController {
    pub closed spec fn live_path(&self) -> Seq<char> {
        self.live_log.path_spec()
    }

    /// The path of the replayed session, `None` while the panel is live.
    pub closed spec fn replay_path(&self) -> Option<Seq<char>> {
        match self.source {
            ObservabilitySource::Live => None,
            ObservabilitySource::Replay(path) => Some(path@),
        }
    }

    /// A controller showing the live log.
    pub fn new(live_log: DiagnosticsLog) -> (r: Self)
        ensures
            r.live_path() == live_log.path_spec(),
            r.replay_path() is None,
    {
        ObservabilityController { live_log, source: ObservabilitySource::Live }
    }

    /// The path of the log that the panel reads.
    pub open spec fn current_path(&self) -> Seq<char> {
        match self.replay_path() {
            Some(path) => path,
            None => self.live_path(),
        }
    }

    /// The log that the panel reads: the replayed session's, or the live one.
    pub fn current_log(&self) -> (r: DiagnosticsLog)
        ensures
            r.path_spec() == self.current_path(),
    {
        match &self.source {
            ObservabilitySource::Live => DiagnosticsLog::new(self.live_log.path()),
            ObservabilitySource::Replay(path) => DiagnosticsLog::new(path.as_str()),
        }
    }

    /// The line that names the panel's source.
    pub open spec fn source_label_spec(&self) -> Seq<char> {
        match self.replay_path() {
            None => "Source: live session log"@,
            Some(path) => "Source: replaying "@ + replay_label(path),
        }
    }

    pub fn source_label(&self) -> (r: String)
        ensures
            r@ == self.source_label_spec(),
    {
        match &self.source {
            ObservabilitySource::Live => String::from_str("Source: live session log"),
            ObservabilitySource::Replay(path) => {
                let mut out = String::from_str("Source: replaying ");
                out.append(replay_source_label(path.as_str()).as_str());
                out
            },
        }
    }

    /// Switches the panel to the session log at `path`.
    pub fn replay(&mut self, path: String)
        ensures
            final(self).replay_path() == Some(path@),
            final(self).live_path() == old(self).live_path(),
    {
        self.source = ObservabilitySource::Replay(path);
    }

    /// Switches the panel back to the live log; says whether it was replaying.
    pub fn return_to_live(&mut self) -> (r: bool)
        ensures
            r == (old(self).replay_path() is Some),
            final(self).replay_path() is None,
            final(self).live_path() == old(self).live_path(),
    {
        let was_replaying = match self.source {
            ObservabilitySource::Live => false,
            ObservabilitySource::Replay(_) => true,
        };
        self.source = ObservabilitySource::Live;
        was_replaying
    }
}

/// Returning to the live log after a replay reads the live log again, whatever was replayed.
pub proof fn lemma_return_to_live_restores_live_log(
    before: ObservabilityController,
    replaying: ObservabilityController,
    after: ObservabilityController,
)
    requires
        replaying.live_path() == before.live_path(),
        after.replay_path() is None,
        after.live_path() == replaying.live_path(),
    ensures
        after.current_path() == before.live_path(),
{
}

/// Where the bridge's runtime controller routing comes from, in order of preference: the
/// selected profile itself, another profile for the same steering device, the seed config.
#[derive(Debug, Clone)]
pub enum RuntimeRoutingSource {
    EmbeddedProfile,
    /// A matching profile, by the path as it is shown.
    MatchingProfile(String),
    /// The seed config, by the path as it is shown.
    FallbackConfig(String),
    Missing,
    /// The selected profile could not be read; the reason.
    Unreadable(String),
}

/// What was found for each routing source: the selected profile (whether it embeds a non-empty
/// controller list, or why it could not be read), a matching profile that could be read
/// (its shown path and whether its controller list is non-empty), and a seed config that could
/// be read (likewise).
pub open spec fn routing_source_spec(
    profile: Result<bool, Seq<char>>,
    matching: Option<(Seq<char>, bool)>,
    fallback: Option<(Seq<char>, bool)>,
) -> RoutingChoice {
    match profile {
        Err(reason) => RoutingChoice::Unreadable(reason),
        Ok(embedded) => if embedded {
            RoutingChoice::EmbeddedProfile
        } else {
            match (matching, fallback) {
                (Some((path, true)), _) => RoutingChoice::MatchingProfile(path),
                (_, Some((path, true))) => RoutingChoice::FallbackConfig(path),
                _ => RoutingChoice::Missing,
            }
        },
    }
}

/// The routing source in terms of character sequences.
pub ghost enum RoutingChoice {
    EmbeddedProfile,
    MatchingProfile(Seq<char>),
    FallbackConfig(Seq<char>),
    Missing,
    Unreadable(Seq<char>),
}

impl RuntimeRoutingSource {
    pub open spec fn choice(&self) -> RoutingChoice {
        match self {
            RuntimeRoutingSource::EmbeddedProfile => RoutingChoice::EmbeddedProfile,
            RuntimeRoutingSource::MatchingProfile(p) => RoutingChoice::MatchingProfile(p@),
            RuntimeRoutingSource::FallbackConfig(p) => RoutingChoice::FallbackConfig(p@),
            RuntimeRoutingSource::Missing => RoutingChoice::Missing,
            RuntimeRoutingSource::Unreadable(e) => RoutingChoice::Unreadable(e@),
        }
    }
}

/// Picks the routing source from what each source gave.
pub fn resolve_routing_source(
    profile: Result<bool, String>,
    matching: Option<(String, bool)>,
    fallback: Option<(String, bool)>,
) -> (r: RuntimeRoutingSource)
    ensures
        r.choice() == routing_source_spec(
            match profile {
                Ok(b) => Ok(b),
                Err(e) => Err(e@),
            },
            match matching {
                Some((p, b)) => Some((p@, b)),
                None => None,
            },
            match fallback {
                Some((p, b)) => Some((p@, b)),
                None => None,
            },
        ),
{
    match profile {
        Err(reason) => RuntimeRoutingSource::Unreadable(reason),
        Ok(embedded) => {
            if embedded {
                return RuntimeRoutingSource::EmbeddedProfile;
            }
            if let Some((path, nonempty)) = matching {
                if nonempty {
                    return RuntimeRoutingSource::MatchingProfile(path);
                }
            }
            if let Some((path, nonempty)) = fallback {
                if nonempty {
                    return RuntimeRoutingSource::FallbackConfig(path);
                }
            }
            RuntimeRoutingSource::Missing
        },
    }
}

/// The status line and the source line that the editor shows for a routing source.
pub open spec fn routing_analysis_spec(source: RoutingChoice, profile_display: Seq<char>) -> (Seq<char>, Seq<char>) {
    match source {
        RoutingChoice::EmbeddedProfile => (
            "Routing: Embedded runtime controllers present in selected profile."@,
            "Routing source: Embedded profile runtime_controllers."@,
        ),
        RoutingChoice::MatchingProfile(path) => (
            "Routing: Will recover from matching profile "@ + path + "."@,
            "Routing source: Matching profile "@ + path + "."@,
        ),
        RoutingChoice::FallbackConfig(path) => (
            "Routing: Will fall back to config "@ + path + "."@,
            "Routing source: Fallback config "@ + path + "."@,
        ),
        RoutingChoice::Unreadable(_) => (
            "Routing: Profile "@ + profile_display + " is unreadable."@,
            "Routing source: Unreadable profile."@,
        ),
        RoutingChoice::Missing => (
            "Routing: Missing runtime controllers and no fallback config source."@,
            "Routing source: None available."@,
        ),
    }
}

fn framed(prefix: &str, middle: &str, suffix: &str) -> (r: String)
    ensures
        r@ == prefix@ + middle@ + suffix@,
{
    let mut out = String::from_str(prefix);
    out.append(middle);
    out.append(suffix);
    out
}

/// The routing status line and source line for the editor.
pub fn runtime_routing_analysis(source: &RuntimeRoutingSource, profile_display: &str) -> (r: (String, String))
    ensures
        (r.0@, r.1@) == routing_analysis_spec(source.choice(), profile_display@),
{
    match source {
        RuntimeRoutingSource::EmbeddedProfile => (
            String::from_str("Routing: Embedded runtime controllers present in selected profile."),
            String::from_str("Routing source: Embedded profile runtime_controllers."),
        ),
        RuntimeRoutingSource::MatchingProfile(path) => (
            framed("Routing: Will recover from matching profile ", path.as_str(), "."),
            framed("Routing source: Matching profile ", path.as_str(), "."),
        ),
        RuntimeRoutingSource::FallbackConfig(path) => (
            framed("Routing: Will fall back to config ", path.as_str(), "."),
            framed("Routing source: Fallback config ", path.as_str(), "."),
        ),
        RuntimeRoutingSource::Unreadable(_) => (
            framed("Routing: Profile ", profile_display, " is unreadable."),
            String::from_str("Routing source: Unreadable profile."),
        ),
        RuntimeRoutingSource::Missing => (
            String::from_str("Routing: Missing runtime controllers and no fallback config source."),
            String::from_str("Routing source: None available."),
        ),
    }
}

/// Whether the bridge may be launched for a profile, the message to show, and a warning.
#[derive(Debug, Clone)]
pub struct LaunchReadiness {
    pub is_blocked: bool,
    pub message: String,
    pub warning: Option<String>,
}

/// The verdict, message and warning for a launch, from the vJoy check's issue, the profile's
/// state (whether it assigns a steering input, or why it could not be read) and the routing
/// source.
pub open spec fn launch_readiness_spec(
    vjoy_issue: Option<Seq<char>>,
    profile: Result<bool, Seq<char>>,
    routing: RoutingChoice,
    profile_display: Seq<char>,
) -> (bool, Seq<char>, Option<Seq<char>>) {
    match vjoy_issue {
        Some(issue) => (true, issue, None),
        None => match profile {
            Err(error) => (true, "profile "@ + profile_display + " is unreadable: "@ + error, None),
            Ok(has_steering) => if !has_steering {
                (true, "no steering input is assigned in the profile"@, None)
            } else {
                match routing {
                    RoutingChoice::EmbeddedProfile => (false, "ready"@, None),
                    RoutingChoice::MatchingProfile(path) => (
                        false,
                        "ready"@,
                        Some("runtime routing will be recovered from matching profile "@ + path),
                    ),
                    RoutingChoice::FallbackConfig(path) => (
                        false,
                        "ready"@,
                        Some("runtime routing depends on fallback config "@ + path),
                    ),
                    RoutingChoice::Unreadable(error) => (
                        true,
                        "profile "@ + profile_display + " is unreadable: "@ + error,
                        None,
                    ),
                    RoutingChoice::Missing => (
                        true,
                        "profile "@ + profile_display
                            + " is missing runtime controller routing; save after selecting a steering device or provide --config for first-time seeding"@,
                        None,
                    ),
                }
            },
        },
    }
}

impl LaunchReadiness {
    pub open spec fn view_triple(&self) -> (bool, Seq<char>, Option<Seq<char>>) {
        (
            self.is_blocked,
            self.message@,
            match self.warning {
                Some(w) => Some(w@),
                None => None,
            },
        )
    }
}

/// Decides whether the bridge may be launched.
pub fn analyze_launch_readiness(
    vjoy_issue: Option<String>,
    profile: Result<bool, String>,
    routing: &RuntimeRoutingSource,
    profile_display: &str,
) -> (r: LaunchReadiness)
    ensures
        r.view_triple() == launch_readiness_spec(
            match vjoy_issue {
                Some(i) => Some(i@),
                None => None,
            },
            match profile {
                Ok(b) => Ok(b),
                Err(e) => Err(e@),
            },
            routing.choice(),
            profile_display@,
        ),
{
    if let Some(issue) = vjoy_issue {
        return LaunchReadiness { is_blocked: true, message: issue, warning: None };
    }
    let has_steering = match profile {
        Err(error) => {
            return LaunchReadiness {
                is_blocked: true,
                message: framed("profile ", profile_display, " is unreadable: ").concat(error.as_str()),
                warning: None,
            };
        },
        Ok(b) => b,
    };
    if !has_steering {
        return LaunchReadiness {
            is_blocked: true,
            message: String::from_str("no steering input is assigned in the profile"),
            warning: None,
        };
    }
    match routing {
        RuntimeRoutingSource::EmbeddedProfile => LaunchReadiness {
            is_blocked: false,
            message: String::from_str("ready"),
            warning: None,
        },
        RuntimeRoutingSource::MatchingProfile(path) => LaunchReadiness {
            is_blocked: false,
            message: String::from_str("ready"),
            warning: Some(
                String::from_str("runtime routing will be recovered from matching profile ").concat(
                    path.as_str(),
                ),
            ),
        },
        RuntimeRoutingSource::FallbackConfig(path) => LaunchReadiness {
            is_blocked: false,
            message: String::from_str("ready"),
            warning: Some(
                String::from_str("runtime routing depends on fallback config ").concat(path.as_str()),
            ),
        },
        RuntimeRoutingSource::Unreadable(error) => LaunchReadiness {
            is_blocked: true,
            message: framed("profile ", profile_display, " is unreadable: ").concat(error.as_str()),
            warning: None,
        },
        RuntimeRoutingSource::Missing => LaunchReadiness {
            is_blocked: true,
            message: framed(
                "profile ",
                profile_display,
                " is missing runtime controller routing; save after selecting a steering device or provide --config for first-time seeding",
            ),
            warning: None,
        },
    }
}

/// With vJoy ready and a readable profile that assigns a steering input, a launch is refused
/// exactly when no routing source supplies controllers: neither the profile itself, nor a
/// matching profile, nor the seed config; and a launch that uses the profile's own controllers
/// carries no warning.
pub proof fn lemma_launch_refused_only_without_routing(
    embedded: bool,
    matching: Option<(Seq<char>, bool)>,
    fallback: Option<(Seq<char>, bool)>,
    profile_display: Seq<char>,
)
    ensures
        ({
            let verdict = launch_readiness_spec(
                None,
                Ok(true),
                routing_source_spec(Ok(embedded), matching, fallback),
                profile_display,
            );
            &&& verdict.0 == !(embedded || (matching matches Some((_, true))) || (fallback matches Some((
                _,
                true,
            ))))
            &&& embedded ==> verdict.2 is None
            &&& (!embedded && !verdict.0) ==> verdict.2 is Some
        }),
{
}

/// A profile that assigns no steering input is never launched, whatever its routing.
pub proof fn lemma_launch_needs_steering(
    vjoy_issue: Option<Seq<char>>,
    routing: RoutingChoice,
    profile_display: Seq<char>,
)
    ensures
        launch_readiness_spec(vjoy_issue, Ok(false), routing, profile_display).0,
{
}

/// The row of the current profile in the profile list, where row 0 is "Select profile": one
/// past the first option whose shown path matches the current one without regard to ASCII case.
pub open spec fn profile_option_index_spec(current: Seq<char>, options: Seq<Seq<char>>) -> int {
    if exists|i: int| 0 <= i < options.len() && eq_ignore_ascii_case_spec(options[i], current) {
        1 + choose|i: int|
            0 <= i < options.len() && eq_ignore_ascii_case_spec(options[i], current) && forall|j: int|
                0 <= j < i ==> !eq_ignore_ascii_case_spec(options[j], current)
    } else {
        0
    }
}

pub fn profile_option_index(current_display: &str, option_displays: &[String]) -> (r: i32)
    requires
        option_displays@.len() < i32::MAX,
    ensures
        r == profile_option_index_spec(current_display@, option_displays@.map_values(|s: String| s@)),
{
    let ghost shown = option_displays@.map_values(|s: String| s@);
    let mut i: usize = 0;
    while i < option_displays.len()
        invariant
            i <= option_displays@.len(),
            option_displays@.len() < i32::MAX,
            shown == option_displays@.map_values(|s: String| s@),
            forall|j: int| 0 <= j < i ==> !eq_ignore_ascii_case_spec(shown[j], current_display@),
        decreases option_displays@.len() - i,
    {
        if eq_ignore_ascii_case(option_displays[i].as_str(), current_display) {
            proof {
                assert(eq_ignore_ascii_case_spec(shown[i as int], current_display@));
                let k = choose|k: int|
                    0 <= k < shown.len() && eq_ignore_ascii_case_spec(shown[k], current_display@)
                        && forall|j: int| 0 <= j < k ==> !eq_ignore_ascii_case_spec(shown[j], current_display@);
                if k < i {
                } else if k > i {
                }
            }
            return i as i32 + 1;
        }
        i += 1;
    }
    0
}

/// The path behind a row of a profile list, where row 0 is the placeholder entry.
pub fn profile_option_path_for_index(index: i32, option_paths: &[String]) -> (r: Option<String>)
    ensures
        match r {
            Some(p) => 1 <= index <= option_paths@.len() && p@ == option_paths@[index - 1]@,
            None => !(1 <= index <= option_paths@.len()),
        },
{
    if index < 1 {
        return None;
    }
    let row: usize = index as usize;
    if row > option_paths.len() {
        None
    } else {
        Some(option_paths[row - 1].as_str().to_owned())
    }
}

} // verus!
