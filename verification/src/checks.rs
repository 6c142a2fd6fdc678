//! Checks of the installation: which updates to look for, and whether the
//! configuration of the environment is in order.

use crate::probe::{ask, ask_for, outcomes, Platform, ProbeOutcome, ProbeResult, Step, StepView};
use crate::report::{bindings, lookup, value_of, VERBOSE_ENV_CHECK};
use crate::text::{chars_of, decimal, format_decimal, result_text, text_of, trim, trimmed};
use vstd::prelude::*;
use vstd::utf8::encode_utf8;

verus! {

pub const UPDATES_TITLE: &'static str =
    "=== 🔄 Checking for Updates ===\n\n🔧 NVIDIA Driver Updates:\n";

pub const TOOLKIT_UPDATES_TITLE: &'static str = "\n⚙️  CUDA Toolkit Updates:\n";

pub const TENSORFLOW_UPDATES_TITLE: &'static str = "\n🔥 TensorFlow Updates:\n";

pub const PYTORCH_UPDATES_TITLE: &'static str = "\n🚀 PyTorch Updates:\n";

pub const DRIVER_LABEL: &'static str = "   Current Driver: ";

pub const DRIVER_ADVICE: &'static str =
    "   Latest Info: Check https://www.nvidia.com/Download/index.aspx\n   💡 Tip: Use GeForce Experience for automatic updates\n";

pub const DRIVER_ABSENT: &'static str = "   ❌ No NVIDIA driver detected\n";

pub const TOOLKIT_ADVICE: &'static str =
    "   Current CUDA: Check with 'nvcc --version'\n   Latest Info: https://developer.nvidia.com/cuda-downloads\n   💡 Tip: CUDA 12.x recommended for latest frameworks\n";

pub const TENSORFLOW_LABEL: &'static str = "   Current TensorFlow: ";

pub const TENSORFLOW_ADVICE: &'static str =
    "   Check latest: pip list --outdated | grep tensorflow\n   Update: pip install --upgrade tensorflow\n";

pub const TENSORFLOW_ABSENT: &'static str = "   ❌ TensorFlow not installed\n";

pub const PYTORCH_LABEL: &'static str = "   Current PyTorch: ";

pub const PYTORCH_ADVICE: &'static str =
    "   Check latest: pip list --outdated | grep torch\n   Update: Visit https://pytorch.org/get-started/locally/\n";

pub const PYTORCH_ABSENT: &'static str = "   ❌ PyTorch not installed\n";

pub const VALIDATION_TITLE: &'static str =
    "=== ✅ Configuration Validation ===\n\n📝 Environment Variables:\n";

pub const LINKING_TITLE: &'static str = "\n🔗 Library Linking:\n";

pub const PERMISSIONS_TITLE: &'static str = "\n🛡️  Permissions:\n";

pub const NETWORK_TITLE: &'static str = "\n🌐 Network/Firewall:\n";

pub const NETWORK_NOTICE: &'static str =
    "   💡 Network validation not implemented yet\n   💡 Manually check: Can access nvidia.com, pytorch.org, tensorflow.org\n";

pub const LINKING_UNSUPPORTED: &'static str =
    "   ⚠️  Library checking not implemented for this OS\n";

pub const PERMISSIONS_UNSUPPORTED: &'static str =
    "   ⚠️  Permission checking not implemented for this OS\n";

pub const DEVICE_FILES_EXIST: &'static str = "   ✅ NVIDIA device files exist\n";

pub const DEVICE_ACCESSIBLE: &'static str = "   ✅ NVIDIA device accessible\n";

pub const DEVICE_NOT_ACCESSIBLE: &'static str =
    "   ❌ NVIDIA device not accessible - check permissions\n";

pub const DEVICE_FILES_MISSING: &'static str = "   ❌ NVIDIA device files not found\n";

pub const DEVICE_FILE: &'static str = "/dev/nvidia0";

pub const LINKING_QUERY: &'static str = "ldconfig -p | grep ";

/// The notice on the updates of one component: the version in use, without
/// surrounding white space, after `label` and before `advice`; or `absent`
/// where the component was not detected.
pub open spec fn update_notice(
    label: Seq<char>,
    advice: Seq<char>,
    absent: Seq<char>,
    detection: Result<Seq<char>, Seq<char>>,
) -> Seq<char> {
    match detection {
        Ok(version) => label + trimmed(version) + "\n"@ + advice,
        Err(_) => absent,
    }
}

/// The report on updates, from how the detections of the driver and the
/// frameworks ended.
pub open spec fn updates_report(
    driver: Result<Seq<char>, Seq<char>>,
    tensorflow: Result<Seq<char>, Seq<char>>,
    pytorch: Result<Seq<char>, Seq<char>>,
) -> Seq<char> {
    UPDATES_TITLE@ + update_notice(DRIVER_LABEL@, DRIVER_ADVICE@, DRIVER_ABSENT@, driver)
        + TOOLKIT_UPDATES_TITLE@ + TOOLKIT_ADVICE@ + TENSORFLOW_UPDATES_TITLE@ + update_notice(
        TENSORFLOW_LABEL@,
        TENSORFLOW_ADVICE@,
        TENSORFLOW_ABSENT@,
        tensorflow,
    ) + PYTORCH_UPDATES_TITLE@ + update_notice(
        PYTORCH_LABEL@,
        PYTORCH_ADVICE@,
        PYTORCH_ABSENT@,
        pytorch,
    )
}

/// The variables that the toolkit needs, each with what it is for.
pub open spec fn toolkit_variables() -> Seq<(Seq<char>, Seq<char>)> {
    seq![
        ("CUDA_PATH"@, "CUDA installation path"@),
        ("CUDA_HOME"@, "CUDA home directory"@),
        ("PATH"@, "Should include CUDA bin directory"@),
        ("LD_LIBRARY_PATH"@, "Should include CUDA lib64 (Linux)"@),
    ]
}

/// The libraries that must be linkable, each with what it is.
pub open spec fn linked_libraries() -> Seq<(Seq<char>, Seq<char>)> {
    seq![
        ("libcuda.so.1"@, "NVIDIA driver library"@),
        ("libcudart.so"@, "CUDA runtime library"@),
        ("libcublas.so"@, "CUDA BLAS library"@),
        ("libcudnn.so"@, "cuDNN library"@),
    ]
}

/// The lines on one variable that the toolkit needs. A variable that is set
/// is reported with the length of its value in bytes, and with what it is
/// for where `explain` holds; one that is not set is reported with what it
/// is for.
pub open spec fn setting_lines(
    name: Seq<char>,
    purpose: Seq<char>,
    value: Option<Seq<char>>,
    explain: bool,
) -> Seq<char> {
    match value {
        Some(text) => "   ✅ "@ + name + ": Set ("@ + decimal(encode_utf8(text).len())
            + " chars)\n"@ + (if explain {
            "      Description: "@ + purpose + "\n"@
        } else {
            Seq::empty()
        }),
        None => "   ⚠️  "@ + name + ": Not set ("@ + purpose + ")\n"@,
    }
}

/// The lines on the given variables, in order.
pub open spec fn settings_report(
    variables: Seq<(Seq<char>, Seq<char>)>,
    environment: Seq<(Seq<char>, Seq<char>)>,
) -> Seq<char>
    decreases variables.len(),
{
    if variables.len() == 0 {
        Seq::empty()
    } else {
        settings_report(variables.drop_last(), environment) + setting_lines(
            variables.last().0,
            variables.last().1,
            value_of(environment, variables.last().0),
            value_of(environment, VERBOSE_ENV_CHECK@) is Some,
        )
    }
}

/// The command that asks the dynamic linker for `library`.
pub open spec fn linking_command(library: Seq<char>) -> Seq<char> {
    LINKING_QUERY@ + library
}

/// The line on one library: found where the linker's listing names it, not
/// found where the listing is blank, and unknown where the linker could not
/// be asked.
pub open spec fn linking_line(
    library: Seq<char>,
    purpose: Seq<char>,
    outcome: ProbeOutcome,
) -> Seq<char> {
    match outcome {
        ProbeOutcome::Success(raw) => if trimmed(raw).len() > 0 {
            "   ✅ "@ + library + ": Found\n"@
        } else {
            "   ❌ "@ + library + ": Not found ("@ + purpose + ")\n"@
        },
        ProbeOutcome::Failure(_) => "   ⚠️  "@ + library + ": Cannot check ("@ + purpose + ")\n"@,
    }
}

/// The lines on the first `count` libraries.
pub open spec fn linking_lines(
    libraries: Seq<(Seq<char>, Seq<char>)>,
    history: Seq<ProbeOutcome>,
    count: nat,
) -> Seq<char>
    decreases count,
{
    if count == 0 {
        Seq::empty()
    } else {
        linking_lines(libraries, history, (count - 1) as nat) + linking_line(
            libraries[count - 1].0,
            libraries[count - 1].1,
            history[count - 1],
        )
    }
}

/// The step in checking that the libraries can be linked. On Linux the
/// dynamic linker is asked for each library in turn, and the report has a
/// line for each. Elsewhere the check is not made, and the report says so.
pub open spec fn library_linking_step(platform: Platform, history: Seq<ProbeOutcome>) -> StepView {
    if platform != Platform::Linux {
        StepView::Done(Ok(LINKING_UNSUPPORTED@))
    } else if history.len() < linked_libraries().len() {
        ask(linking_command(linked_libraries()[history.len() as int].0))
    } else {
        StepView::Done(
            Ok(linking_lines(linked_libraries(), history, linked_libraries().len())),
        )
    }
}

/// The lines on the permissions of the device files. The check is made on
/// Linux only.
pub open spec fn permissions_report(platform: Platform, exists: bool, accessible: bool) -> Seq<
    char,
> {
    if platform != Platform::Linux {
        PERMISSIONS_UNSUPPORTED@
    } else if !exists {
        DEVICE_FILES_MISSING@
    } else if accessible {
        DEVICE_FILES_EXIST@ + DEVICE_ACCESSIBLE@
    } else {
        DEVICE_FILES_EXIST@ + DEVICE_NOT_ACCESSIBLE@
    }
}

/// What the validation ends with, given the step of the linking check: its
/// own report put together with the others, or the probe that it asks for.
pub open spec fn validation_of(
    linking: StepView,
    platform: Platform,
    environment: Seq<(Seq<char>, Seq<char>)>,
    exists: bool,
    accessible: bool,
) -> StepView {
    match linking {
        StepView::Done(Ok(lines)) => StepView::Done(
            Ok(
                VALIDATION_TITLE@ + settings_report(toolkit_variables(), environment)
                    + LINKING_TITLE@ + lines + PERMISSIONS_TITLE@ + permissions_report(
                    platform,
                    exists,
                    accessible,
                ) + NETWORK_TITLE@ + NETWORK_NOTICE@,
            ),
        ),
        other => other,
    }
}

/// Writes the notice on the updates of one component.
fn write_update_notice(
    label: &str,
    advice: &str,
    absent: &str,
    detection: &Result<String, String>,
) -> (out: String)
    ensures
        out@ == update_notice(label@, advice@, absent@, result_text(*detection)),
{
    match detection {
        Ok(version) => {
            let mut out = label.to_string();
            out.append(text_of(&trim(&chars_of(version.as_str()))).as_str());
            out.append("\n");
            out.append(advice);
            out
        },
        Err(_) => absent.to_string(),
    }
}

/// The notice on updates of the driver.
pub fn check_nvidia_driver_updates(detection: &Result<String, String>) -> (out: String)
    ensures
        out@ == update_notice(
            DRIVER_LABEL@,
            DRIVER_ADVICE@,
            DRIVER_ABSENT@,
            result_text(*detection),
        ),
{
    write_update_notice(DRIVER_LABEL, DRIVER_ADVICE, DRIVER_ABSENT, detection)
}

/// The notice on updates of the toolkit.
pub fn check_cuda_updates() -> (out: String)
    ensures
        out@ == TOOLKIT_ADVICE@,
{
    TOOLKIT_ADVICE.to_string()
}

/// The notice on updates of TensorFlow.
pub fn check_tensorflow_updates(detection: &Result<String, String>) -> (out: String)
    ensures
        out@ == update_notice(
            TENSORFLOW_LABEL@,
            TENSORFLOW_ADVICE@,
            TENSORFLOW_ABSENT@,
            result_text(*detection),
        ),
{
    write_update_notice(TENSORFLOW_LABEL, TENSORFLOW_ADVICE, TENSORFLOW_ABSENT, detection)
}

/// The notice on updates of PyTorch.
pub fn check_pytorch_updates(detection: &Result<String, String>) -> (out: String)
    ensures
        out@ == update_notice(
            PYTORCH_LABEL@,
            PYTORCH_ADVICE@,
            PYTORCH_ABSENT@,
            result_text(*detection),
        ),
{
    write_update_notice(PYTORCH_LABEL, PYTORCH_ADVICE, PYTORCH_ABSENT, detection)
}

/// Writes the report on updates from how the detections of the driver and
/// the frameworks ended: see `updates_report`.
pub fn check_for_updates(
    driver: &Result<String, String>,
    tensorflow: &Result<String, String>,
    pytorch: &Result<String, String>,
) -> (out: String)
    ensures
        out@ == updates_report(
            result_text(*driver),
            result_text(*tensorflow),
            result_text(*pytorch),
        ),
{
    let mut out = UPDATES_TITLE.to_string();
    out.append(check_nvidia_driver_updates(driver).as_str());
    out.append(TOOLKIT_UPDATES_TITLE);
    out.append(check_cuda_updates().as_str());
    out.append(TENSORFLOW_UPDATES_TITLE);
    out.append(check_tensorflow_updates(tensorflow).as_str());
    out.append(PYTORCH_UPDATES_TITLE);
    out.append(check_pytorch_updates(pytorch).as_str());
    out
}

/// Makes a pair of strings.
fn pair(first: &str, second: &str) -> (out: (String, String))
    ensures
        out.0@ == first@,
        out.1@ == second@,
{
    (first.to_string(), second.to_string())
}

/// The variables that the toolkit needs, each with what it is for.
pub fn toolkit_variable_list() -> (out: Vec<(String, String)>)
    ensures
        bindings(out@) == toolkit_variables(),
{
    let mut out: Vec<(String, String)> = Vec::new();
    out.push(pair("CUDA_PATH", "CUDA installation path"));
    out.push(pair("CUDA_HOME", "CUDA home directory"));
    out.push(pair("PATH", "Should include CUDA bin directory"));
    out.push(pair("LD_LIBRARY_PATH", "Should include CUDA lib64 (Linux)"));
    assert(bindings(out@) =~= toolkit_variables());
    out
}

/// The libraries that must be linkable, each with what it is.
pub fn linked_library_list() -> (out: Vec<(String, String)>)
    ensures
        bindings(out@) == linked_libraries(),
{
    let mut out: Vec<(String, String)> = Vec::new();
    out.push(pair("libcuda.so.1", "NVIDIA driver library"));
    out.push(pair("libcudart.so", "CUDA runtime library"));
    out.push(pair("libcublas.so", "CUDA BLAS library"));
    out.push(pair("libcudnn.so", "cuDNN library"));
    assert(bindings(out@) =~= linked_libraries());
    out
}

/// Writes the lines on one variable that the toolkit needs.
fn write_setting_lines(name: &str, purpose: &str, value: Option<&String>, explain: bool) -> (out:
    String)
    ensures
        out@ == setting_lines(
            name@,
            purpose@,
            match value {
                Some(text) => Some(text@),
                None => None,
            },
            explain,
        ),
{
    match value {
        Some(text) => {
            let mut out = "   ✅ ".to_string();
            out.append(name);
            out.append(": Set (");
            out.append(text_of(&format_decimal(text.as_str().as_bytes().len() as u64)).as_str());
            out.append(" chars)\n");
            if explain {
                let mut note = "      Description: ".to_string();
                note.append(purpose);
                note.append("\n");
                out.append(note.as_str());
            } else {
                assert(out@ + Seq::<char>::empty() =~= out@);
            }
            out
        },
        None => {
            let mut out = "   ⚠️  ".to_string();
            out.append(name);
            out.append(": Not set (");
            out.append(purpose);
            out.append(")\n");
            out
        },
    }
}

/// Writes the lines on the variables that the toolkit needs, as the
/// environment has them. What each variable is for is added to a variable
/// that is set where the environment sets the variable that asks for it.
pub fn validate_environment_variables(environment: &Vec<(String, String)>) -> (out: String)
    ensures
        out@ == settings_report(toolkit_variables(), bindings(environment@)),
{
    let variables = toolkit_variable_list();
    let explain = lookup(environment, VERBOSE_ENV_CHECK).is_some();
    let ghost all = bindings(variables@);
    let mut out = String::new();
    let mut i: usize = 0;
    assert(all.subrange(0, 0) =~= Seq::<(Seq<char>, Seq<char>)>::empty());
    while i < variables.len()
        invariant
            i <= variables.len(),
            all == bindings(variables@),
            explain == (value_of(bindings(environment@), VERBOSE_ENV_CHECK@) is Some),
            out@ == settings_report(all.subrange(0, i as int), bindings(environment@)),
        decreases variables.len() - i,
    {
        let ghost next = all.subrange(0, i + 1);
        proof {
            assert(next.drop_last() =~= all.subrange(0, i as int));
            assert(next.last() == (variables@[i as int].0@, variables@[i as int].1@));
        }
        let lines = write_setting_lines(
            variables[i].0.as_str(),
            variables[i].1.as_str(),
            lookup(environment, variables[i].0.as_str()),
            explain,
        );
        out.append(lines.as_str());
        i = i + 1;
    }
    assert(all.subrange(0, variables@.len() as int) =~= all);
    out
}

/// Writes the line on one library.
fn write_linking_line(library: &str, purpose: &str, outcome: &ProbeResult) -> (out: String)
    ensures
        out@ == linking_line(library@, purpose@, outcome@),
{
    match outcome {
        ProbeResult::Success(raw) => {
            if trim(&chars_of(raw.as_str())).len() > 0 {
                let mut out = "   ✅ ".to_string();
                out.append(library);
                out.append(": Found\n");
                out
            } else {
                let mut out = "   ❌ ".to_string();
                out.append(library);
                out.append(": Not found (");
                out.append(purpose);
                out.append(")\n");
                out
            }
        },
        ProbeResult::Failure(_) => {
            let mut out = "   ⚠️  ".to_string();
            out.append(library);
            out.append(": Cannot check (");
            out.append(purpose);
            out.append(")\n");
            out
        },
    }
}

/// The step in checking that the libraries can be linked that `history`
/// leads to: see `library_linking_step`.
pub fn validate_library_linking(platform: Platform, history: &Vec<ProbeResult>) -> (out: Step)
    ensures
        out@ == library_linking_step(platform, outcomes(history@)),
{
    match platform {
        Platform::Linux => {},
        _ => {
            return Step::Done(Ok(LINKING_UNSUPPORTED.to_string()));
        },
    }
    let libraries = linked_library_list();
    let ghost all = bindings(libraries@);
    assert(all.len() == 4);
    assert(libraries@.len() == all.len());
    if history.len() < libraries.len() {
        let at = history.len();
        assert(all[at as int] == (libraries@[at as int].0@, libraries@[at as int].1@));
        let mut command = LINKING_QUERY.to_string();
        command.append(libraries[at].0.as_str());
        return ask_for(command.as_str());
    }
    let mut text = String::new();
    let mut i: usize = 0;
    while i < libraries.len()
        invariant
            i <= libraries.len(),
            libraries.len() <= history.len(),
            all == bindings(libraries@),
            text@ == linking_lines(all, outcomes(history@), i as nat),
        decreases libraries.len() - i,
    {
        proof {
            assert(all[i as int] == (libraries@[i as int].0@, libraries@[i as int].1@));
            assert(outcomes(history@)[i as int] == history@[i as int]@);
        }
        let line = write_linking_line(
            libraries[i].0.as_str(),
            libraries[i].1.as_str(),
            &history[i],
        );
        text.append(line.as_str());
        i = i + 1;
    }
    Step::Done(Ok(text))
}

/// Writes the lines on the permissions of the device files, from whether
/// the first device file exists and whether it can be read.
pub fn validate_permissions(platform: Platform, exists: bool, accessible: bool) -> (out: String)
    ensures
        out@ == permissions_report(platform, exists, accessible),
{
    match platform {
        Platform::Linux => {
            if !exists {
                DEVICE_FILES_MISSING.to_string()
            } else {
                let mut out = DEVICE_FILES_EXIST.to_string();
                if accessible {
                    out.append(DEVICE_ACCESSIBLE);
                } else {
                    out.append(DEVICE_NOT_ACCESSIBLE);
                }
                out
            }
        },
        _ => PERMISSIONS_UNSUPPORTED.to_string(),
    }
}

/// The notice on access to the network.
pub fn validate_network_access() -> (out: String)
    ensures
        out@ == NETWORK_NOTICE@,
{
    NETWORK_NOTICE.to_string()
}

/// The step in validating the configuration that `history` leads to. The
/// history is that of the linking check, the one part that needs probes; the
/// report puts the variables, the linking, the permissions and the network
/// notice under their headings: see `validation_of`.
pub fn validate_configuration(
    platform: Platform,
    environment: &Vec<(String, String)>,
    exists: bool,
    accessible: bool,
    history: &Vec<ProbeResult>,
) -> (out: Step)
    ensures
        out@ == validation_of(
            library_linking_step(platform, outcomes(history@)),
            platform,
            bindings(environment@),
            exists,
            accessible,
        ),
{
    match validate_library_linking(platform, history) {
        Step::Done(Ok(lines)) => {
            let mut out = VALIDATION_TITLE.to_string();
            out.append(validate_environment_variables(environment).as_str());
            out.append(LINKING_TITLE);
            out.append(lines.as_str());
            out.append(PERMISSIONS_TITLE);
            out.append(validate_permissions(platform, exists, accessible).as_str());
            out.append(NETWORK_TITLE);
            out.append(validate_network_access().as_str());
            Step::Done(Ok(out))
        },
        other => other,
    }
}

} // verus!
