//! Reports in text: the interpreter, the environment's variables, the
//! benchmarks, the available updates and the validation of the configuration.
//!
//! The environment is handed in as a list of names and values. Every report
//! is complete text, line feeds included, ready to be written out.

use crate::probe::{ask, ask_for, outcomes, ProbeOutcome, ProbeResult, Step, StepView};
use crate::gpu::{csv_fields, split_csv};
use crate::text::{
    chars_of, decimal, extend, format_decimal, lines, push_text, same_text, slice_of, split_lines,
    split_words, text_of, texts, trim, trimmed, views, words,
};
use vstd::prelude::*;

verus! {

pub const PYTHON_VERSION_QUERY: &'static str = "python --version";

pub const PYTHON3_VERSION_QUERY: &'static str = "python3 --version";

pub const PIP_VERSION_QUERY: &'static str = "pip --version";

pub const VIRTUAL_ENV: &'static str = "VIRTUAL_ENV";

pub const PYTHON_NOT_FOUND: &'static str = "   Python: Not found\n";

pub const NO_VIRTUAL_ENV: &'static str = "   Virtual Env: None\n";

pub const UNKNOWN_VERSION: &'static str = "unknown";

/// The views of an environment: its names and values, in order.
pub open spec fn bindings(environment: Seq<(String, String)>) -> Seq<(Seq<char>, Seq<char>)> {
    environment.map_values(|binding: (String, String)| (binding.0@, binding.1@))
}

/// The value that an environment gives to `name`: that of the first binding
/// of the name.
pub open spec fn value_of(environment: Seq<(Seq<char>, Seq<char>)>, name: Seq<char>) -> Option<
    Seq<char>,
>
    decreases environment.len(),
{
    if environment.len() == 0 {
        None
    } else if environment[0].0 == name {
        Some(environment[0].1)
    } else {
        value_of(environment.drop_first(), name)
    }
}

/// The line of the interpreter report that gives the interpreter's version.
pub open spec fn python_line(version: Option<Seq<char>>) -> Seq<char> {
    match version {
        Some(raw) => "   Python: "@ + trimmed(raw) + "\n"@,
        None => PYTHON_NOT_FOUND@,
    }
}

/// The line of the interpreter report that gives the package manager's
/// version: the second word of what the manager printed, or a word that
/// says that it is unknown; nothing where the manager could not be run.
pub open spec fn pip_line(outcome: ProbeOutcome) -> Seq<char> {
    match outcome {
        ProbeOutcome::Success(raw) => "   Pip: "@ + (if words(raw).len() > 1 {
            words(raw)[1]
        } else {
            UNKNOWN_VERSION@
        }) + "\n"@,
        ProbeOutcome::Failure(_) => Seq::empty(),
    }
}

/// The line of the interpreter report that names the virtual environment.
pub open spec fn virtual_env_line(value: Option<Seq<char>>) -> Seq<char> {
    match value {
        Some(path) => "   Virtual Env: "@ + path + "\n"@,
        None => NO_VIRTUAL_ENV@,
    }
}

/// The end of the interpreter report, once the interpreter's line is known
/// and `rest` is the history after the probes that it took.
pub open spec fn python_info_tail(
    first: Seq<char>,
    rest: Seq<ProbeOutcome>,
    environment: Seq<(Seq<char>, Seq<char>)>,
) -> StepView {
    if rest.len() == 0 {
        ask(PIP_VERSION_QUERY@)
    } else {
        StepView::Done(
            Ok(first + pip_line(rest[0]) + virtual_env_line(value_of(environment, VIRTUAL_ENV@))),
        )
    }
}

/// The step in reporting on the interpreter. The interpreter is asked for
/// its version under its first name, and under its second name if the first
/// fails; then the package manager is asked for its version. The report is
/// made whatever the answers were.
pub open spec fn python_info_step(
    history: Seq<ProbeOutcome>,
    environment: Seq<(Seq<char>, Seq<char>)>,
) -> StepView {
    if history.len() == 0 {
        ask(PYTHON_VERSION_QUERY@)
    } else {
        match history[0] {
            ProbeOutcome::Success(raw) => python_info_tail(
                python_line(Some(raw)),
                history.subrange(1, history.len() as int),
                environment,
            ),
            ProbeOutcome::Failure(_) => if history.len() == 1 {
                ask(PYTHON3_VERSION_QUERY@)
            } else {
                match history[1] {
                    ProbeOutcome::Success(raw) => python_info_tail(
                        python_line(Some(raw)),
                        history.subrange(2, history.len() as int),
                        environment,
                    ),
                    ProbeOutcome::Failure(_) => python_info_tail(
                        python_line(None),
                        history.subrange(2, history.len() as int),
                        environment,
                    ),
                }
            },
        }
    }
}

/// Looks a name up in an environment: see `value_of`.
pub fn lookup<'a>(environment: &'a Vec<(String, String)>, name: &str) -> (out: Option<&'a String>)
    ensures
        match out {
            Some(value) => value_of(bindings(environment@), name@) == Some(value@),
            None => value_of(bindings(environment@), name@) is None,
        },
{
    let ghost all = bindings(environment@);
    let mut i: usize = 0;
    assert(all.subrange(0, all.len() as int) == all);
    while i < environment.len()
        invariant
            i <= environment.len(),
            all == bindings(environment@),
            value_of(all, name@) == value_of(all.subrange(i as int, all.len() as int), name@),
        decreases environment.len() - i,
    {
        let ghost rest = all.subrange(i as int, all.len() as int);
        proof {
            assert(rest[0] == (environment@[i as int].0@, environment@[i as int].1@));
            assert(rest.drop_first() == all.subrange(i + 1, all.len() as int));
        }
        if same_text(environment[i].0.as_str(), name) {
            return Some(&environment[i].1);
        }
        i = i + 1;
    }
    None
}

/// Writes the line that gives the interpreter's version.
fn write_python_line(version: Option<&String>) -> (out: String)
    ensures
        out@ == python_line(
            match version {
                Some(raw) => Some(raw@),
                None => None,
            },
        ),
{
    match version {
        Some(raw) => {
            let mut out = "   Python: ".to_string();
            out.append(text_of(&trim(&chars_of(raw.as_str()))).as_str());
            out.append("\n");
            out
        },
        None => PYTHON_NOT_FOUND.to_string(),
    }
}

/// Writes the line that gives the package manager's version.
fn write_pip_line(outcome: &ProbeResult) -> (out: String)
    ensures
        out@ == pip_line(outcome@),
{
    match outcome {
        ProbeResult::Failure(_) => String::new(),
        ProbeResult::Success(raw) => {
            let parts = split_words(&chars_of(raw.as_str()));
            let mut out = "   Pip: ".to_string();
            if parts.len() > 1 {
                assert(views(parts@)[1] == parts@[1]@);
                out.append(text_of(&parts[1]).as_str());
            } else {
                out.append(UNKNOWN_VERSION);
            }
            out.append("\n");
            out
        },
    }
}

/// Writes the line that names the virtual environment.
fn write_virtual_env_line(environment: &Vec<(String, String)>) -> (out: String)
    ensures
        out@ == virtual_env_line(value_of(bindings(environment@), VIRTUAL_ENV@)),
{
    match lookup(environment, VIRTUAL_ENV) {
        Some(path) => {
            let mut out = "   Virtual Env: ".to_string();
            out.append(path.as_str());
            out.append("\n");
            out
        },
        None => NO_VIRTUAL_ENV.to_string(),
    }
}

/// Finishes the interpreter report: see `python_info_tail`.
fn finish_python_info(
    first: String,
    history: &Vec<ProbeResult>,
    at: usize,
    environment: &Vec<(String, String)>,
) -> (out: Step)
    requires
        at <= history.len(),
    ensures
        out@ == python_info_tail(
            first@,
            outcomes(history@).subrange(at as int, history@.len() as int),
            bindings(environment@),
        ),
{
    if at == history.len() {
        return ask_for(PIP_VERSION_QUERY);
    }
    assert(outcomes(history@).subrange(at as int, history@.len() as int)[0] == history@[at as int]@);
    let mut out = first;
    out.append(write_pip_line(&history[at]).as_str());
    out.append(write_virtual_env_line(environment).as_str());
    Step::Done(Ok(out))
}

/// The step in reporting on the interpreter that `history` leads to: see
/// `python_info_step`.
pub fn get_python_info(history: &Vec<ProbeResult>, environment: &Vec<(String, String)>) -> (out:
    Step)
    ensures
        out@ == python_info_step(outcomes(history@), bindings(environment@)),
{
    if history.len() == 0 {
        return ask_for(PYTHON_VERSION_QUERY);
    }
    match &history[0] {
        ProbeResult::Success(raw) => finish_python_info(
            write_python_line(Some(raw)),
            history,
            1,
            environment,
        ),
        ProbeResult::Failure(_) => {
            if history.len() == 1 {
                ask_for(PYTHON3_VERSION_QUERY)
            } else {
                match &history[1] {
                    ProbeResult::Success(raw) => finish_python_info(
                        write_python_line(Some(raw)),
                        history,
                        2,
                        environment,
                    ),
                    ProbeResult::Failure(_) => finish_python_info(
                        write_python_line(None),
                        history,
                        2,
                        environment,
                    ),
                }
            }
        },
    }
}


pub const NOT_SET: &'static str = "Not set";

pub const ELLIPSIS: &'static str = "...";

pub const CUDA_PATH: &'static str = "CUDA_PATH";

pub const CUDA_HOME: &'static str = "CUDA_HOME";

pub const PATH: &'static str = "PATH";

pub const LD_LIBRARY_PATH: &'static str = "LD_LIBRARY_PATH";

pub const PYTHONPATH: &'static str = "PYTHONPATH";

pub const CONDA_DEFAULT_ENV: &'static str = "CONDA_DEFAULT_ENV";

pub const VERBOSE_ENV_CHECK: &'static str = "VERBOSE_ENV_CHECK";

/// The script that tries how much device memory can be allocated.
pub const GPU_MEMORY_SCRIPT: &'static str = r#"
import torch
import time
try:
    if torch.cuda.is_available():
        device = torch.cuda.get_device_name(0)
        memory_gb = torch.cuda.get_device_properties(0).total_memory / 1e9
        print(f"GPU: {device}")
        print(f"Total Memory: {memory_gb:.1f} GB")
        
        # Memory allocation test
        sizes = [1, 2, 4, 8]
        for size_gb in sizes:
            try:
                size_bytes = int(size_gb * 1e9 / 4)  # float32 = 4 bytes
                tensor = torch.randn(size_bytes, device='cuda')
                allocated = torch.cuda.memory_allocated() / 1e9
                print(f"Allocated {size_gb}GB: ✅ Success ({allocated:.1f}GB used)")
                del tensor
                torch.cuda.empty_cache()
                time.sleep(0.1)
            except Exception as e:
                print(f"Allocated {size_gb}GB: ❌ Failed - {str(e)[:50]}")
                break
    else:
        print("❌ CUDA not available")
except Exception as e:
    print(f"❌ Error: {e}")
"#;

/// The script that times matrix products on the device.
pub const CUDA_PERFORMANCE_SCRIPT: &'static str = r#"
import time
try:
    import torch
    if torch.cuda.is_available():
        device = torch.device('cuda')
        
        # Matrix multiplication benchmark
        sizes = [1024, 2048, 4096]
        for size in sizes:
            torch.cuda.synchronize()
            start_time = time.time()
            
            a = torch.randn(size, size, device=device)
            b = torch.randn(size, size, device=device)
            c = torch.matmul(a, b)
            
            torch.cuda.synchronize()
            end_time = time.time()
            
            elapsed = end_time - start_time
            gflops = (2 * size ** 3) / (elapsed * 1e9)
            print(f"Matrix {size}x{size}: {elapsed:.3f}s ({gflops:.1f} GFLOPS)")
            
            del a, b, c
            torch.cuda.empty_cache()
    else:
        print("❌ CUDA not available")
except Exception as e:
    print(f"❌ Error: {e}")
"#;

/// The script that runs a computation on the device through TensorFlow.
pub const TENSORFLOW_GPU_SCRIPT: &'static str = r#"
try:
    import tensorflow as tf
    print(f"TensorFlow {tf.__version__}")
    
    gpus = tf.config.list_physical_devices('GPU')
    if gpus:
        print(f"GPUs available: {len(gpus)}")
        for i, gpu in enumerate(gpus):
            print(f"   GPU {i}: {gpu.name}")
        
        # Simple computation test
        with tf.device('/GPU:0'):
            a = tf.random.normal([1000, 1000])
            b = tf.random.normal([1000, 1000])
            c = tf.matmul(a, b)
            print("✅ TensorFlow GPU computation successful")
    else:
        print("❌ No GPU devices found by TensorFlow")
except ImportError:
    print("❌ TensorFlow not installed")
except Exception as e:
    print(f"❌ Error: {e}")
"#;

/// The script that runs a computation on the device through PyTorch.
pub const PYTORCH_GPU_SCRIPT: &'static str = r#"
try:
    import torch
    print(f"PyTorch {torch.__version__}")
    
    if torch.cuda.is_available():
        gpu_count = torch.cuda.device_count()
        print(f"CUDA available: {gpu_count} GPU(s)")
        
        for i in range(gpu_count):
            name = torch.cuda.get_device_name(i)
            capability = torch.cuda.get_device_capability(i)
            print(f"   GPU {i}: {name} (CC {capability[0]}.{capability[1]})")
        
        # Simple computation test
        device = torch.device('cuda:0')
        a = torch.randn(1000, 1000, device=device)
        b = torch.randn(1000, 1000, device=device)
        c = torch.matmul(a, b)
        print("✅ PyTorch GPU computation successful")
    else:
        print("❌ CUDA not available in PyTorch")
except ImportError:
    print("❌ PyTorch not installed")
except Exception as e:
    print(f"❌ Error: {e}")
"#;

pub const MONITOR_QUERY: &'static str =
    "nvidia-smi --query-gpu=temperature.gpu,power.draw,utilization.gpu --format=csv,noheader,nounits";

pub const GPU_MEMORY_FAILED: &'static str = "   ❌ Memory test failed - PyTorch not available\n";

pub const CUDA_PERFORMANCE_FAILED: &'static str = "   ❌ CUDA performance test failed\n";

pub const TENSORFLOW_GPU_FAILED: &'static str = "   ❌ TensorFlow test failed\n";

pub const PYTORCH_GPU_FAILED: &'static str = "   ❌ PyTorch test failed\n";

pub const MONITOR_FAILED: &'static str = "   ❌ Unable to monitor GPU status\n";

pub const MONITOR_HEADING: &'static str = "   Current GPU Status:\n";

pub const GPU_MEMORY_TITLE: &'static str = "⚡ GPU Memory Test...\n";

pub const CUDA_PERFORMANCE_TITLE: &'static str = "\n🧮 CUDA Performance Test...\n";

pub const TENSORFLOW_GPU_TITLE: &'static str = "\n🔥 TensorFlow GPU Test...\n";

pub const PYTORCH_GPU_TITLE: &'static str = "\n🚀 PyTorch GPU Test...\n";

pub const MONITOR_TITLE: &'static str = "\n🌡️  System Monitoring...\n";

/// What is shown of a variable's value: the value, or its first 57
/// characters and an ellipsis where it has more than 60.
pub open spec fn shown_value(value: Seq<char>) -> Seq<char> {
    if value.len() > 60 {
        value.subrange(0, 57) + ELLIPSIS@
    } else {
        value
    }
}

/// The line that shows one variable of the environment.
pub open spec fn variable_line(name: Seq<char>, value: Option<Seq<char>>) -> Seq<char> {
    "   "@ + name + ": "@ + (match value {
        Some(text) => shown_value(text),
        None => NOT_SET@,
    }) + "\n"@
}

/// The variables that matter to the toolkit and the frameworks.
pub open spec fn important_variables() -> Seq<Seq<char>> {
    seq![
        CUDA_PATH@,
        CUDA_HOME@,
        PATH@,
        LD_LIBRARY_PATH@,
        PYTHONPATH@,
        VIRTUAL_ENV@,
        CONDA_DEFAULT_ENV@,
    ]
}

/// The lines that show the given variables, in order.
pub open spec fn variable_lines(
    names: Seq<Seq<char>>,
    environment: Seq<(Seq<char>, Seq<char>)>,
) -> Seq<char>
    decreases names.len(),
{
    if names.len() == 0 {
        Seq::empty()
    } else {
        variable_lines(names.drop_last(), environment) + variable_line(
            names.last(),
            value_of(environment, names.last()),
        )
    }
}

/// The command that hands `script` to the interpreter.
pub open spec fn script_command(script: Seq<char>) -> Seq<char> {
    "python -c \""@ + script + "\""@
}

/// The given lines, each indented and ended by a line feed.
pub open spec fn indented(rows: Seq<Seq<char>>) -> Seq<char>
    decreases rows.len(),
{
    if rows.len() == 0 {
        Seq::empty()
    } else {
        indented(rows.drop_last()) + ("   "@ + rows.last() + "\n"@)
    }
}

/// The part of the benchmark report for one script: what the script
/// printed, indented, or `failed` where it could not be run.
pub open spec fn script_section(outcome: ProbeOutcome, failed: Seq<char>) -> Seq<char> {
    match outcome {
        ProbeOutcome::Success(raw) => indented(lines(raw)),
        ProbeOutcome::Failure(_) => failed,
    }
}

/// The line of the monitoring report for the device at position `index`:
/// nothing for a line with fewer than three fields.
pub open spec fn monitor_row(index: nat, line: Seq<char>) -> Seq<char> {
    let parts = csv_fields(line);
    if parts.len() >= 3 {
        "   GPU "@ + decimal(index) + ": "@ + parts[0] + "°C, "@ + parts[1] + "W, "@ + parts[2]
            + "% utilization\n"@
    } else {
        Seq::empty()
    }
}

/// The lines of the monitoring report for the first `count` devices.
pub open spec fn monitor_rows(rows: Seq<Seq<char>>, count: nat) -> Seq<char>
    decreases count,
{
    if count == 0 {
        Seq::empty()
    } else {
        monitor_rows(rows, (count - 1) as nat) + monitor_row((count - 1) as nat, rows[count - 1])
    }
}

/// The monitoring part of the benchmark report.
pub open spec fn monitor_section(outcome: ProbeOutcome) -> Seq<char> {
    match outcome {
        ProbeOutcome::Success(raw) => MONITOR_HEADING@ + monitor_rows(
            lines(raw),
            lines(raw).len(),
        ),
        ProbeOutcome::Failure(_) => MONITOR_FAILED@,
    }
}

/// The commands of the benchmark run, in order.
pub open spec fn benchmark_commands() -> Seq<Seq<char>> {
    seq![
        script_command(GPU_MEMORY_SCRIPT@),
        script_command(CUDA_PERFORMANCE_SCRIPT@),
        script_command(TENSORFLOW_GPU_SCRIPT@),
        script_command(PYTORCH_GPU_SCRIPT@),
        MONITOR_QUERY@,
    ]
}

/// The benchmark report for a history of five results.
pub open spec fn benchmarks_report(history: Seq<ProbeOutcome>) -> Seq<char> {
    GPU_MEMORY_TITLE@ + script_section(history[0], GPU_MEMORY_FAILED@) + CUDA_PERFORMANCE_TITLE@
        + script_section(history[1], CUDA_PERFORMANCE_FAILED@) + TENSORFLOW_GPU_TITLE@
        + script_section(history[2], TENSORFLOW_GPU_FAILED@) + PYTORCH_GPU_TITLE@ + script_section(
        history[3],
        PYTORCH_GPU_FAILED@,
    ) + MONITOR_TITLE@ + monitor_section(history[4])
}

/// The step in running the benchmarks. Each of the five commands is asked
/// for in turn, whatever the ones before it gave; then the report is made.
pub open spec fn benchmarks_step(history: Seq<ProbeOutcome>) -> StepView {
    if history.len() < 5 {
        ask(benchmark_commands()[history.len() as int])
    } else {
        StepView::Done(Ok(benchmarks_report(history)))
    }
}

/// Shows a variable's value: see `shown_value`.
pub fn abbreviate(value: &str) -> (out: String)
    ensures
        out@ == shown_value(value@),
{
    let chars = chars_of(value);
    if chars.len() > 60 {
        let mut out = text_of(&slice_of(&chars, 0, 57));
        out.append(ELLIPSIS);
        out
    } else {
        value.to_string()
    }
}

/// Writes the line that shows one variable: see `variable_line`.
pub fn describe_variable(name: &str, value: Option<&String>) -> (out: String)
    ensures
        out@ == variable_line(
            name@,
            match value {
                Some(text) => Some(text@),
                None => None,
            },
        ),
{
    let mut out = "   ".to_string();
    out.append(name);
    out.append(": ");
    match value {
        Some(text) => {
            out.append(abbreviate(text.as_str()).as_str());
        },
        None => {
            out.append(NOT_SET);
        },
    }
    out.append("\n");
    out
}

/// The names of the variables that matter to the toolkit and the frameworks.
pub fn important_variable_names() -> (out: Vec<String>)
    ensures
        texts(out@) == important_variables(),
{
    let mut out: Vec<String> = Vec::new();
    out.push(CUDA_PATH.to_string());
    out.push(CUDA_HOME.to_string());
    out.push(PATH.to_string());
    out.push(LD_LIBRARY_PATH.to_string());
    out.push(PYTHONPATH.to_string());
    out.push(VIRTUAL_ENV.to_string());
    out.push(CONDA_DEFAULT_ENV.to_string());
    assert(texts(out@) =~= important_variables());
    out
}

/// Writes the lines that show the variables that matter, as the
/// environment has them.
pub fn check_environment_variables(environment: &Vec<(String, String)>) -> (out: String)
    ensures
        out@ == variable_lines(important_variables(), bindings(environment@)),
{
    let names = important_variable_names();
    let ghost all = texts(names@);
    let mut out = String::new();
    let mut i: usize = 0;
    assert(all.subrange(0, 0) =~= Seq::<Seq<char>>::empty());
    while i < names.len()
        invariant
            i <= names.len(),
            all == texts(names@),
            out@ == variable_lines(all.subrange(0, i as int), bindings(environment@)),
        decreases names.len() - i,
    {
        let ghost next = all.subrange(0, i + 1);
        proof {
            assert(next.drop_last() =~= all.subrange(0, i as int));
            assert(next.last() == names@[i as int]@);
        }
        let line = describe_variable(names[i].as_str(), lookup(environment, names[i].as_str()));
        out.append(line.as_str());
        i = i + 1;
    }
    assert(all.subrange(0, names@.len() as int) =~= all);
    out
}

/// Builds the command that hands `script` to the interpreter.
pub fn command_for_script(script: &str) -> (out: String)
    ensures
        out@ == script_command(script@),
{
    let mut out = "python -c \"".to_string();
    out.append(script);
    out.append("\"");
    out
}

/// Writes the given lines, each indented and ended by a line feed.
pub fn indent_lines(raw: &str) -> (out: String)
    ensures
        out@ == indented(lines(raw@)),
{
    let rows = split_lines(&chars_of(raw));
    let mut out: Vec<char> = Vec::new();
    let mut i: usize = 0;
    assert(views(rows@).subrange(0, 0) =~= Seq::<Seq<char>>::empty());
    while i < rows.len()
        invariant
            i <= rows.len(),
            out@ == indented(views(rows@).subrange(0, i as int)),
        decreases rows.len() - i,
    {
        let ghost next = views(rows@).subrange(0, i + 1);
        proof {
            assert(next.drop_last() =~= views(rows@).subrange(0, i as int));
            assert(next.last() == rows@[i as int]@);
        }
        let mut line = chars_of("   ");
        extend(&mut line, &rows[i]);
        push_text(&mut line, "\n");
        extend(&mut out, &line);
        i = i + 1;
    }
    assert(views(rows@).subrange(0, rows@.len() as int) =~= views(rows@));
    text_of(&out)
}

/// Writes the part of the benchmark report for one script.
fn write_script_section(outcome: &ProbeResult, failed: &str) -> (out: String)
    ensures
        out@ == script_section(outcome@, failed@),
{
    match outcome {
        ProbeResult::Success(raw) => indent_lines(raw.as_str()),
        ProbeResult::Failure(_) => failed.to_string(),
    }
}

/// The part of the benchmark report for the memory test.
pub fn test_gpu_memory(outcome: &ProbeResult) -> (out: String)
    ensures
        out@ == script_section(outcome@, GPU_MEMORY_FAILED@),
{
    write_script_section(outcome, GPU_MEMORY_FAILED)
}

/// The part of the benchmark report for the performance test.
pub fn test_cuda_performance(outcome: &ProbeResult) -> (out: String)
    ensures
        out@ == script_section(outcome@, CUDA_PERFORMANCE_FAILED@),
{
    write_script_section(outcome, CUDA_PERFORMANCE_FAILED)
}

/// The part of the benchmark report for the TensorFlow test.
pub fn test_tensorflow_gpu(outcome: &ProbeResult) -> (out: String)
    ensures
        out@ == script_section(outcome@, TENSORFLOW_GPU_FAILED@),
{
    write_script_section(outcome, TENSORFLOW_GPU_FAILED)
}

/// The part of the benchmark report for the PyTorch test.
pub fn test_pytorch_gpu(outcome: &ProbeResult) -> (out: String)
    ensures
        out@ == script_section(outcome@, PYTORCH_GPU_FAILED@),
{
    write_script_section(outcome, PYTORCH_GPU_FAILED)
}

/// Writes the line of the monitoring report for one device.
fn write_monitor_row(index: usize, line: &Vec<char>) -> (out: Vec<char>)
    ensures
        out@ == monitor_row(index as nat, line@),
{
    let parts = split_csv(line);
    if parts.len() >= 3 {
        proof {
            assert(views(parts@)[0] == parts@[0]@);
            assert(views(parts@)[1] == parts@[1]@);
            assert(views(parts@)[2] == parts@[2]@);
        }
        let mut out = chars_of("   GPU ");
        extend(&mut out, &format_decimal(index as u64));
        push_text(&mut out, ": ");
        extend(&mut out, &parts[0]);
        push_text(&mut out, "°C, ");
        extend(&mut out, &parts[1]);
        push_text(&mut out, "W, ");
        extend(&mut out, &parts[2]);
        push_text(&mut out, "% utilization\n");
        out
    } else {
        Vec::new()
    }
}

/// The monitoring part of the benchmark report: the temperature, the power
/// draw and the utilization of each device.
pub fn monitor_system_during_load(outcome: &ProbeResult) -> (out: String)
    ensures
        out@ == monitor_section(outcome@),
{
    match outcome {
        ProbeResult::Failure(_) => MONITOR_FAILED.to_string(),
        ProbeResult::Success(raw) => {
            let rows = split_lines(&chars_of(raw.as_str()));
            let mut body: Vec<char> = Vec::new();
            let mut i: usize = 0;
            while i < rows.len()
                invariant
                    i <= rows.len(),
                    body@ == monitor_rows(views(rows@), i as nat),
                decreases rows.len() - i,
            {
                assert(views(rows@)[i as int] == rows@[i as int]@);
                let row = write_monitor_row(i, &rows[i]);
                extend(&mut body, &row);
                i = i + 1;
            }
            let mut out = MONITOR_HEADING.to_string();
            out.append(text_of(&body).as_str());
            out
        },
    }
}

/// The step in running the benchmarks that `history` leads to: see
/// `benchmarks_step`.
pub fn run_benchmarks(history: &Vec<ProbeResult>) -> (out: Step)
    ensures
        out@ == benchmarks_step(outcomes(history@)),
{
    let n = history.len();
    if n == 0 {
        ask_for(command_for_script(GPU_MEMORY_SCRIPT).as_str())
    } else if n == 1 {
        ask_for(command_for_script(CUDA_PERFORMANCE_SCRIPT).as_str())
    } else if n == 2 {
        ask_for(command_for_script(TENSORFLOW_GPU_SCRIPT).as_str())
    } else if n == 3 {
        ask_for(command_for_script(PYTORCH_GPU_SCRIPT).as_str())
    } else if n == 4 {
        ask_for(MONITOR_QUERY)
    } else {
        proof {
            assert forall|k: int| 0 <= k < 5 implies outcomes(history@)[k] == history@[k]@ by {}
        }
        let mut out = GPU_MEMORY_TITLE.to_string();
        out.append(test_gpu_memory(&history[0]).as_str());
        out.append(CUDA_PERFORMANCE_TITLE);
        out.append(test_cuda_performance(&history[1]).as_str());
        out.append(TENSORFLOW_GPU_TITLE);
        out.append(test_tensorflow_gpu(&history[2]).as_str());
        out.append(PYTORCH_GPU_TITLE);
        out.append(test_pytorch_gpu(&history[3]).as_str());
        out.append(MONITOR_TITLE);
        out.append(monitor_system_during_load(&history[4]).as_str());
        Step::Done(Ok(out))
    }
}

} // verus!
