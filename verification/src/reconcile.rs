//! Comparison of two snapshots, field by field.
//!
//! Versions are compared as text, character by character. Two sources may
//! print the same version differently, and no reading of the tokens as
//! numbers is attempted: tokens that differ are reported as different.

use crate::bridge::{render_timestamp, timestamp_text};
use crate::snapshot::{EnvironmentConfig, EnvironmentView, Timestamp};
use crate::text::{format_signed, same_text, signed_decimal, some_text, text_of};
use vstd::prelude::*;

verus! {

pub const SYSTEM_FIELD: &'static str = "System";

pub const DRIVER_FIELD: &'static str = "Driver";

pub const TOOLKIT_FIELD: &'static str = "CUDA";

pub const CUDNN_FIELD: &'static str = "cuDNN";

pub const TENSORFLOW_FIELD: &'static str = "TensorFlow";

pub const PYTORCH_FIELD: &'static str = "PyTorch";

pub const TIMESTAMP_LAYOUT: &'static str = "%Y-%m-%d %H:%M:%S UTC";

pub const REPORT_HEADING: &'static str =
    "\n=== 📊 Environment Comparison ===\n\n🖥️  System Comparison:\n";

pub const SYSTEMS_DIFFER: &'static str = "   ⚠️  Different operating systems detected!\n";

pub const TOOLKIT_HEADING: &'static str = "\n🔧 CUDA Comparison:\n";

pub const FRAMEWORK_HEADING: &'static str = "\n🤖 Framework Comparison:\n";

pub const IMPORT_HEADING: &'static str = "\n📅 Import Info:\n";

/// How the local and the remote value of one field relate.
#[derive(Clone, Copy, Debug, PartialEq, Eq, Structural)]
pub enum Classification {
    /// Both sides have the value, and it is the same text.
    Match,
    /// Both sides have a value, and the texts differ.
    Mismatch,
    /// Only the local side has a value.
    LocalOnly,
    /// Only the remote side has a value.
    RemoteOnly,
    /// Neither side has a value.
    BothAbsent,
}

/// The comparison of one field: its name, how the two sides relate, and the
/// two values as they were found.
#[derive(Debug, PartialEq, Eq)]
pub struct ReconciliationEntry {
    pub field: String,
    pub classification: Classification,
    pub local: Option<String>,
    pub remote: Option<String>,
}

/// The mathematical value of a `ReconciliationEntry`.
pub struct EntryView {
    pub field: Seq<char>,
    pub classification: Classification,
    pub local: Option<Seq<char>>,
    pub remote: Option<Seq<char>>,
}

impl View for ReconciliationEntry {
    type V = EntryView;

    open spec fn view(&self) -> EntryView {
        EntryView {
            field: self.field@,
            classification: self.classification,
            local: some_text(self.local),
            remote: some_text(self.remote),
        }
    }
}

/// The views of a sequence of entries.
pub open spec fn entry_views(entries: Seq<ReconciliationEntry>) -> Seq<EntryView> {
    entries.map_values(|entry: ReconciliationEntry| entry@)
}

/// How a local and a remote value relate.
pub open spec fn classify(local: Option<Seq<char>>, remote: Option<Seq<char>>) -> Classification {
    match (local, remote) {
        (Some(a), Some(b)) => if a == b {
            Classification::Match
        } else {
            Classification::Mismatch
        },
        (Some(_), None) => Classification::LocalOnly,
        (None, Some(_)) => Classification::RemoteOnly,
        (None, None) => Classification::BothAbsent,
    }
}

/// The classification as seen from the other side: what is only local there
/// is only remote here, and the rest stays.
pub open spec fn mirrored(classification: Classification) -> Classification {
    match classification {
        Classification::LocalOnly => Classification::RemoteOnly,
        Classification::RemoteOnly => Classification::LocalOnly,
        other => other,
    }
}

/// The comparison of one field.
pub open spec fn entry_of(
    field: Seq<char>,
    local: Option<Seq<char>>,
    remote: Option<Seq<char>>,
) -> EntryView {
    EntryView { field, classification: classify(local, remote), local, remote }
}

/// The comparison of two snapshots: one entry for each tracked field, in the
/// fixed order system, driver, toolkit, library, frameworks.
pub open spec fn reconciliation(local: EnvironmentView, remote: EnvironmentView) -> Seq<EntryView> {
    seq![
        entry_of(SYSTEM_FIELD@, Some(local.system_info.os), Some(remote.system_info.os)),
        entry_of(
            DRIVER_FIELD@,
            local.cuda_info.driver_version,
            remote.cuda_info.driver_version,
        ),
        entry_of(TOOLKIT_FIELD@, local.cuda_info.cuda_version, remote.cuda_info.cuda_version),
        entry_of(CUDNN_FIELD@, local.cuda_info.cudnn_version, remote.cuda_info.cudnn_version),
        entry_of(TENSORFLOW_FIELD@, local.frameworks.tensorflow, remote.frameworks.tensorflow),
        entry_of(PYTORCH_FIELD@, local.frameworks.pytorch, remote.frameworks.pytorch),
    ]
}

/// The line of the report for one entry. Both values are shown where they
/// differ.
pub open spec fn entry_line(entry: EntryView) -> Seq<char> {
    match (entry.local, entry.remote) {
        (Some(a), Some(b)) => if a == b {
            "   ✅ "@ + entry.field + ": "@ + a + " (matches)\n"@
        } else {
            "   ⚠️  "@ + entry.field + ": "@ + a + " vs "@ + b + " (different)\n"@
        },
        (Some(a), None) => "   ➕ "@ + entry.field + ": "@ + a + " (not in import)\n"@,
        (None, Some(b)) => "   ➖ "@ + entry.field + ": "@ + b + " (missing locally)\n"@,
        (None, None) => "   ❌ "@ + entry.field + ": Not available in either\n"@,
    }
}

/// The text that shows a moment: as the calendar gives it where it can, else
/// the seconds since the epoch.
pub open spec fn moment_text(moment: Timestamp) -> Seq<char> {
    match timestamp_text(moment.seconds as int, moment.nanoseconds as int, TIMESTAMP_LAYOUT@) {
        Some(text) => text,
        None => signed_decimal(moment.seconds as int),
    }
}

/// The lines of the report that describe the two systems.
pub open spec fn system_lines(local: EnvironmentView, remote: EnvironmentView) -> Seq<char> {
    "   Current:  "@ + local.system_info.os + " ("@ + local.system_info.arch + ")\n"@
        + "   Imported: "@ + remote.system_info.os + " ("@ + remote.system_info.arch + ")\n"@ + (
    if local.system_info.os != remote.system_info.os {
        SYSTEMS_DIFFER@
    } else {
        Seq::empty()
    })
}

/// The report on the comparison of the current snapshot with an imported one.
pub open spec fn report_text(local: EnvironmentView, remote: EnvironmentView) -> Seq<char> {
    let entries = reconciliation(local, remote);
    REPORT_HEADING@ + system_lines(local, remote) + TOOLKIT_HEADING@ + entry_line(entries[1])
        + entry_line(entries[2]) + entry_line(entries[3]) + FRAMEWORK_HEADING@ + entry_line(
        entries[4],
    ) + entry_line(entries[5]) + IMPORT_HEADING@ + "   Exported: "@ + moment_text(
        remote.timestamp,
    ) + "\n   Hostname: "@ + remote.hostname + "\n"@
}

/// A copy of an optional string.
pub fn copy_of(value: &Option<String>) -> (out: Option<String>)
    ensures
        some_text(out) == some_text(*value),
{
    match value {
        Some(text) => Some(text.clone()),
        None => None,
    }
}

/// Classifies a local and a remote value: see `classify`.
pub fn classify_values(local: &Option<String>, remote: &Option<String>) -> (out: Classification)
    ensures
        out == classify(some_text(*local), some_text(*remote)),
{
    match (local, remote) {
        (Some(a), Some(b)) => if same_text(a.as_str(), b.as_str()) {
            Classification::Match
        } else {
            Classification::Mismatch
        },
        (Some(_), None) => Classification::LocalOnly,
        (None, Some(_)) => Classification::RemoteOnly,
        (None, None) => Classification::BothAbsent,
    }
}

/// Compares the current and the imported value of one component.
pub fn compare_versions(component: &str, current: &Option<String>, imported: &Option<String>) -> (out:
    ReconciliationEntry)
    ensures
        out@ == entry_of(component@, some_text(*current), some_text(*imported)),
{
    ReconciliationEntry {
        field: component.to_string(),
        classification: classify_values(current, imported),
        local: copy_of(current),
        remote: copy_of(imported),
    }
}

/// Compares two snapshots: see `reconciliation`. Neither snapshot is changed.
pub fn compare_environments(current: &EnvironmentConfig, imported: &EnvironmentConfig) -> (out: Vec<
    ReconciliationEntry,
>)
    ensures
        entry_views(out@) == reconciliation(current@, imported@),
{
    let mut out: Vec<ReconciliationEntry> = Vec::new();
    out.push(
        compare_versions(
            SYSTEM_FIELD,
            &Some(current.system_info.os.clone()),
            &Some(imported.system_info.os.clone()),
        ),
    );
    out.push(
        compare_versions(
            DRIVER_FIELD,
            &current.cuda_info.driver_version,
            &imported.cuda_info.driver_version,
        ),
    );
    out.push(
        compare_versions(
            TOOLKIT_FIELD,
            &current.cuda_info.cuda_version,
            &imported.cuda_info.cuda_version,
        ),
    );
    out.push(
        compare_versions(
            CUDNN_FIELD,
            &current.cuda_info.cudnn_version,
            &imported.cuda_info.cudnn_version,
        ),
    );
    out.push(
        compare_versions(
            TENSORFLOW_FIELD,
            &current.frameworks.tensorflow,
            &imported.frameworks.tensorflow,
        ),
    );
    out.push(
        compare_versions(PYTORCH_FIELD, &current.frameworks.pytorch, &imported.frameworks.pytorch),
    );
    assert(entry_views(out@) =~= reconciliation(current@, imported@));
    out
}

impl ReconciliationEntry {
    /// The line of the report for this entry: see `entry_line`.
    pub fn describe(&self) -> (out: String)
        ensures
            out@ == entry_line(self@),
    {
        match (&self.local, &self.remote) {
            (Some(a), Some(b)) => {
                if same_text(a.as_str(), b.as_str()) {
                    let mut out = "   ✅ ".to_string();
                    out.append(self.field.as_str());
                    out.append(": ");
                    out.append(a.as_str());
                    out.append(" (matches)\n");
                    out
                } else {
                    let mut out = "   ⚠️  ".to_string();
                    out.append(self.field.as_str());
                    out.append(": ");
                    out.append(a.as_str());
                    out.append(" vs ");
                    out.append(b.as_str());
                    out.append(" (different)\n");
                    out
                }
            },
            (Some(a), None) => {
                let mut out = "   ➕ ".to_string();
                out.append(self.field.as_str());
                out.append(": ");
                out.append(a.as_str());
                out.append(" (not in import)\n");
                out
            },
            (None, Some(b)) => {
                let mut out = "   ➖ ".to_string();
                out.append(self.field.as_str());
                out.append(": ");
                out.append(b.as_str());
                out.append(" (missing locally)\n");
                out
            },
            (None, None) => {
                let mut out = "   ❌ ".to_string();
                out.append(self.field.as_str());
                out.append(": Not available in either\n");
                out
            },
        }
    }
}

/// Picks the text that shows a moment: the calendar text where there is one,
/// else the seconds since the epoch.
pub fn moment_or_seconds(calendar: Option<String>, seconds: i64) -> (out: String)
    ensures
        out@ == match some_text(calendar) {
            Some(text) => text,
            None => signed_decimal(seconds as int),
        },
{
    match calendar {
        Some(text) => text,
        None => text_of(&format_signed(seconds)),
    }
}

/// Writes a moment for the report: see `moment_text`.
pub fn describe_moment(moment: Timestamp) -> (out: String)
    ensures
        out@ == moment_text(moment),
{
    moment_or_seconds(
        render_timestamp(moment.seconds, moment.nanoseconds, TIMESTAMP_LAYOUT),
        moment.seconds,
    )
}

/// Writes the lines of the report that describe the two systems.
fn describe_systems(current: &EnvironmentConfig, imported: &EnvironmentConfig) -> (out: String)
    ensures
        out@ == system_lines(current@, imported@),
{
    let mut out = "   Current:  ".to_string();
    out.append(current.system_info.os.as_str());
    out.append(" (");
    out.append(current.system_info.arch.as_str());
    out.append(")\n");
    out.append("   Imported: ");
    out.append(imported.system_info.os.as_str());
    out.append(" (");
    out.append(imported.system_info.arch.as_str());
    out.append(")\n");
    if !same_text(current.system_info.os.as_str(), imported.system_info.os.as_str()) {
        out.append(SYSTEMS_DIFFER);
    } else {
        assert(out@ + Seq::<char>::empty() =~= out@);
    }
    out
}

/// Writes the report on the comparison of the current snapshot with an
/// imported one: see `report_text`.
pub fn comparison_report(current: &EnvironmentConfig, imported: &EnvironmentConfig) -> (out: String)
    ensures
        out@ == report_text(current@, imported@),
{
    let entries = compare_environments(current, imported);
    proof {
        assert(reconciliation(current@, imported@).len() == 6);
        assert(entries@.len() == entry_views(entries@).len());
        assert forall|k: int| 0 <= k < 6 implies entry_views(entries@)[k] == entries@[k]@ by {}
    }
    let mut out = REPORT_HEADING.to_string();
    out.append(describe_systems(current, imported).as_str());
    out.append(TOOLKIT_HEADING);
    out.append(entries[1].describe().as_str());
    out.append(entries[2].describe().as_str());
    out.append(entries[3].describe().as_str());
    out.append(FRAMEWORK_HEADING);
    out.append(entries[4].describe().as_str());
    out.append(entries[5].describe().as_str());
    out.append(IMPORT_HEADING);
    out.append("   Exported: ");
    out.append(describe_moment(imported.timestamp).as_str());
    out.append("\n   Hostname: ");
    out.append(imported.hostname.as_str());
    out.append("\n");
    out
}

/// Swapping the two sides mirrors the classification: what was only local is
/// only remote, what was only remote is only local, and a match, a mismatch
/// and an absence on both sides stay what they were.
pub proof fn lemma_classify_mirrored(local: Option<Seq<char>>, remote: Option<Seq<char>>)
    ensures
        classify(remote, local) == mirrored(classify(local, remote)),
{
}

/// Swapping the two snapshots mirrors every entry of the comparison: the
/// fields keep their order and names, each classification is mirrored, and
/// the two values change places.
pub proof fn lemma_reconciliation_mirrored(local: EnvironmentView, remote: EnvironmentView)
    ensures
        reconciliation(remote, local).len() == reconciliation(local, remote).len(),
        forall|k: int|
            0 <= k < reconciliation(local, remote).len() ==> {
                let forth = #[trigger] reconciliation(local, remote)[k];
                let back = reconciliation(remote, local)[k];
                &&& back.field == forth.field
                &&& back.classification == mirrored(forth.classification)
                &&& back.local == forth.remote
                &&& back.remote == forth.local
            },
{
}

/// The classification of every entry of a comparison is that of the two
/// values that the entry keeps.
pub proof fn lemma_reconciliation_classified(local: EnvironmentView, remote: EnvironmentView)
    ensures
        forall|k: int|
            0 <= k < reconciliation(local, remote).len() ==> {
                let entry = #[trigger] reconciliation(local, remote)[k];
                entry.classification == classify(entry.local, entry.remote)
            },
{
}

} // verus!
