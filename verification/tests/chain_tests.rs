use cuda_doctor::detect::{
    cuda_toolkit_strategies, cudnn_strategies, get_conda_package_version,
    get_cuda_toolkit_version, get_cudnn_version, get_pip_package_version, get_python_version,
    get_pytorch_version, get_tensorflow_version, pytorch_strategies, tensorflow_strategies,
};
use cuda_doctor::probe::{
    interpret_exit, parse_with, run_chain, shell_of, version_query_command, FollowUp, Package,
    Parser, Platform, Probe, ProbeResult, Step, Strategy,
};

fn ok(text: &str) -> ProbeResult {
    ProbeResult::Success(text.to_string())
}

fn fail(text: &str) -> ProbeResult {
    ProbeResult::Failure(text.to_string())
}

fn command(text: &str) -> Step {
    Step::Probe(Probe::Command { command: text.to_string() })
}

fn found(text: &str) -> Step {
    Step::Done(Ok(text.to_string()))
}

fn missing(text: &str) -> Step {
    Step::Done(Err(text.to_string()))
}

fn three_commands() -> Vec<Strategy> {
    vec![
        Strategy::command("a", Parser::PrintedValue),
        Strategy::command("b", Parser::PrintedValue),
        Strategy::command("c", Parser::PrintedValue),
    ]
}

#[test]
fn chain_asks_for_first_strategy_on_empty_history() {
    assert_eq!(run_chain(three_commands(), &vec![], "nothing"), command("a"));
}

#[test]
fn chain_respects_order_and_stops_at_first_token() {
    let history = vec![fail("boom"), ok("1.2.3\n")];
    assert_eq!(run_chain(three_commands(), &history, "nothing"), found("1.2.3"));
}

#[test]
fn chain_ignores_history_after_first_token() {
    let history = vec![fail("boom"), ok("1.2.3\n"), ok("9.9.9\n")];
    assert_eq!(run_chain(three_commands(), &history, "nothing"), found("1.2.3"));
}

#[test]
fn chain_moves_on_after_failure_or_unparseable_output() {
    assert_eq!(run_chain(three_commands(), &vec![fail("boom")], "nothing"), command("b"));
    assert_eq!(run_chain(three_commands(), &vec![ok("None\n")], "nothing"), command("b"));
    assert_eq!(run_chain(three_commands(), &vec![ok("None\n"), ok("  ")], "nothing"), command("c"));
}

#[test]
fn chain_exhausted_is_not_detected() {
    let history = vec![fail("boom"), ok("None"), ok("")];
    assert_eq!(run_chain(three_commands(), &history, "nothing"), missing("nothing"));
    assert_eq!(run_chain(vec![], &vec![], "nothing"), missing("nothing"));
    assert_eq!(run_chain(vec![], &vec![ok("1.0")], "nothing"), missing("nothing"));
}

#[test]
fn every_capability_is_not_detected_when_all_strategies_fail() {
    let failures: Vec<ProbeResult> = (0..20).map(|_| fail("no such command")).collect();
    for platform in [Platform::Windows, Platform::Linux, Platform::MacOs] {
        assert_eq!(get_cuda_toolkit_version(platform, &failures), missing("CUDA Toolkit not found"));
        assert_eq!(get_cudnn_version(platform, &failures), missing("cuDNN version not found"));
    }
    assert_eq!(get_tensorflow_version(&failures), missing("TensorFlow not found or not installed"));
    assert_eq!(get_pytorch_version(&failures), missing("PyTorch not found or not installed"));
    assert_eq!(get_python_version(&failures), missing("Python not found"));
}

#[test]
fn every_capability_is_not_detected_when_all_output_is_unparseable() {
    let noise: Vec<ProbeResult> = (0..20).map(|_| ok("  \n")).collect();
    assert_eq!(get_cuda_toolkit_version(Platform::Linux, &noise), missing("CUDA Toolkit not found"));
    assert_eq!(get_cudnn_version(Platform::Linux, &noise), missing("cuDNN version not found"));
    assert_eq!(get_tensorflow_version(&noise), missing("TensorFlow not found or not installed"));
    assert_eq!(get_pytorch_version(&noise), missing("PyTorch not found or not installed"));
}

#[test]
fn plans_have_the_expected_lengths() {
    assert_eq!(cuda_toolkit_strategies(Platform::Linux).len(), 11);
    assert_eq!(cuda_toolkit_strategies(Platform::Windows).len(), 9);
    assert_eq!(cuda_toolkit_strategies(Platform::MacOs).len(), 7);
    assert_eq!(cudnn_strategies(Platform::Linux).len(), 9);
    assert_eq!(cudnn_strategies(Platform::Windows).len(), 8);
    assert_eq!(cudnn_strategies(Platform::MacOs).len(), 4);
    assert_eq!(tensorflow_strategies().len(), 5);
    assert_eq!(pytorch_strategies().len(), 6);
}

#[test]
fn toolkit_starts_with_the_compiler() {
    assert_eq!(get_cuda_toolkit_version(Platform::Linux, &vec![]), command("nvcc --version"));
    let banner = ok("Cuda compilation tools, release 12.2, V12.2.140\n");
    assert_eq!(get_cuda_toolkit_version(Platform::Linux, &vec![banner]), found("12.2"));
}

#[test]
fn toolkit_version_file_is_tried_on_linux_only() {
    let three = vec![fail("x"), fail("x"), fail("x")];
    assert_eq!(
        get_cuda_toolkit_version(Platform::Linux, &three),
        command("cat /usr/local/cuda/version.txt")
    );
    assert_eq!(
        get_cuda_toolkit_version(Platform::Windows, &three),
        command(r#"python -c "import torch; print(torch.version.cuda)""#)
    );
    let four = vec![fail("x"), fail("x"), fail("x"), ok("CUDA Version 10.2.89\n")];
    assert_eq!(get_cuda_toolkit_version(Platform::Linux, &four), found("10.2"));
}

#[test]
fn toolkit_asks_the_frameworks_after_the_toolkit_itself() {
    let four = vec![fail("x"), fail("x"), fail("x"), fail("x")];
    assert_eq!(
        get_cuda_toolkit_version(Platform::Linux, &four),
        command(r#"python -c "import torch; print(torch.version.cuda)""#)
    );
    let printed = vec![fail("x"), fail("x"), fail("x"), fail("x"), ok("None\n"), ok("12.1\n")];
    assert_eq!(get_cuda_toolkit_version(Platform::Linux, &printed), found("12.1"));
}

#[test]
fn toolkit_ends_with_searches_for_the_compiler() {
    let eight: Vec<ProbeResult> = (0..8).map(|_| fail("x")).collect();
    assert_eq!(
        get_cuda_toolkit_version(Platform::Linux, &eight),
        Step::Probe(Probe::PathSearch {
            variable: "PATH".to_string(),
            name: "nvcc".to_string(),
            follow_up: FollowUp::QueryVersion,
        })
    );
    let nine: Vec<ProbeResult> = (0..9).map(|_| fail("x")).collect();
    assert_eq!(
        get_cuda_toolkit_version(Platform::Linux, &nine),
        Step::Probe(Probe::FileScan {
            root: "/usr/local/cuda".to_string(),
            names: vec!["nvcc".to_string(), "nvcc.exe".to_string()],
            follow_up: FollowUp::QueryVersionQuoted,
        })
    );
    let seven: Vec<ProbeResult> = (0..7).map(|_| fail("x")).collect();
    assert_eq!(
        get_cuda_toolkit_version(Platform::Windows, &seven),
        Step::Probe(Probe::PathSearch {
            variable: "PATH".to_string(),
            name: "nvcc.exe".to_string(),
            follow_up: FollowUp::QueryVersionQuoted,
        })
    );
    assert_eq!(get_cuda_toolkit_version(Platform::MacOs, &seven), missing("CUDA Toolkit not found"));
    let mut searched = nine;
    searched.push(ok("Cuda compilation tools, V11.8.89\n"));
    assert_eq!(
        get_cuda_toolkit_version(Platform::Linux, &searched),
        Step::Probe(Probe::FileScan {
            root: "/opt/cuda".to_string(),
            names: vec!["nvcc".to_string(), "nvcc.exe".to_string()],
            follow_up: FollowUp::QueryVersionQuoted,
        })
    );
}

#[test]
fn cudnn_asks_the_frameworks_first() {
    for platform in [Platform::Linux, Platform::Windows, Platform::MacOs] {
        assert_eq!(
            get_cudnn_version(platform, &vec![]),
            command(r#"python -c "import torch; print(torch.backends.cudnn.version())""#)
        );
        assert_eq!(get_cudnn_version(platform, &vec![ok("8902\n")]), found("8902"));
    }
    assert_eq!(get_cudnn_version(Platform::Linux, &vec![ok("None\n"), fail("x"), ok("8.9.2\n")]), found("8.9.2"));
}

#[test]
fn cudnn_reads_the_header_after_the_frameworks() {
    let four = vec![fail("x"), ok("None\n"), fail("x"), fail("x")];
    assert_eq!(
        get_cudnn_version(Platform::Linux, &four),
        Step::Probe(Probe::PathSearch {
            variable: "LD_LIBRARY_PATH".to_string(),
            name: "cudnn_version.h".to_string(),
            follow_up: FollowUp::ReadContents,
        })
    );
    assert_eq!(
        get_cudnn_version(Platform::Windows, &four),
        Step::Probe(Probe::PathSearch {
            variable: "PATH".to_string(),
            name: "cudnn_version.h".to_string(),
            follow_up: FollowUp::ReadContents,
        })
    );
    assert_eq!(get_cudnn_version(Platform::MacOs, &four), missing("cuDNN version not found"));
    let header = ok("#define CUDNN_MAJOR 8\n#define CUDNN_MINOR 9\n#define CUDNN_PATCHLEVEL 7\n");
    let mut read = vec![fail("x"), ok("None\n"), fail("x"), fail("x")];
    read.push(header);
    assert_eq!(get_cudnn_version(Platform::Linux, &read), found("8.9.7"));
}

#[test]
fn cudnn_prefers_the_framework_to_a_header_on_disk() {
    let header = ok("#define CUDNN_MAJOR 8\n#define CUDNN_MINOR 9\n#define CUDNN_PATCHLEVEL 7\n");
    let history = vec![ok("8902\n"), fail("x"), fail("x"), fail("x"), header];
    assert_eq!(get_cudnn_version(Platform::Linux, &history), found("8902"));
}

#[test]
fn cudnn_falls_through_a_garbled_header() {
    let garbled = ok("#define CUDNN_MAJOR 8\n#define CUDNN_MINOR 9\n");
    let history = vec![fail("x"), fail("x"), fail("x"), fail("x"), garbled];
    assert_eq!(
        get_cudnn_version(Platform::Linux, &history),
        Step::Probe(Probe::FileScan {
            root: "/usr/local/cuda".to_string(),
            names: vec!["cudnn_version.h".to_string()],
            follow_up: FollowUp::ReadContents,
        })
    );
    let unnumbered = ok("#define CUDNN_MAJOR\n#define CUDNN_MINOR 9\n#define CUDNN_PATCHLEVEL 7\n");
    let history = vec![fail("x"), fail("x"), fail("x"), fail("x"), unnumbered];
    assert!(matches!(get_cudnn_version(Platform::Linux, &history), Step::Probe(Probe::FileScan { .. })));
}

#[test]
fn tensorflow_goes_from_interpreter_to_package_managers() {
    assert_eq!(
        get_tensorflow_version(&vec![]),
        command(r#"python -c "import tensorflow as tf; print(tf.__version__)""#)
    );
    assert_eq!(get_tensorflow_version(&vec![ok("2.15.0\n")]), found("2.15.0"));
    let two = vec![fail("x"), ok("WARNING: broken\n2.15.0\n")];
    assert_eq!(get_tensorflow_version(&two), command("pip show tensorflow"));
    let three = vec![fail("x"), fail("x"), ok("Name: tensorflow\nVersion: 2.14.1\n")];
    assert_eq!(get_tensorflow_version(&three), found("2.14.1"));
    let four = vec![fail("x"), fail("x"), fail("x"), fail("x")];
    assert_eq!(get_tensorflow_version(&four), command("conda list tensorflow"));
    let five = vec![fail("x"), fail("x"), fail("x"), fail("x"), ok("tensorflow  2.12.0  gpu_py311\n")];
    assert_eq!(get_tensorflow_version(&five), found("2.12.0"));
}

#[test]
fn pytorch_asks_conda_under_both_names() {
    let four = vec![fail("x"), fail("x"), fail("x"), fail("x")];
    assert_eq!(get_pytorch_version(&four), command("conda list pytorch"));
    let five = vec![fail("x"), fail("x"), fail("x"), fail("x"), ok("# nothing\n")];
    assert_eq!(get_pytorch_version(&five), command("conda list torch"));
    let six = vec![fail("x"), fail("x"), fail("x"), fail("x"), ok("# nothing\n"), ok("torch 2.0.1 py310\n")];
    assert_eq!(get_pytorch_version(&six), found("2.0.1"));
    let wrong_name = vec![fail("x"), fail("x"), fail("x"), fail("x"), ok("torch 2.0.1 py310\n")];
    assert_eq!(get_pytorch_version(&wrong_name), command("conda list torch"));
}

#[test]
fn python_version_is_trimmed_output_of_first_interpreter_found() {
    assert_eq!(get_python_version(&vec![]), command("python --version"));
    assert_eq!(get_python_version(&vec![ok("Python 3.11.4\n")]), found("Python 3.11.4"));
    assert_eq!(get_python_version(&vec![fail("x")]), command("python3 --version"));
    assert_eq!(get_python_version(&vec![fail("x"), ok("Python 3.9.1\n")]), found("Python 3.9.1"));
    assert_eq!(get_python_version(&vec![ok("")]), command("python3 --version"));
    assert_eq!(get_python_version(&vec![ok(" \n"), ok("")]), missing("Python not found"));
}

#[test]
fn pip_package_version_builds_command_and_reads_answer() {
    assert_eq!(get_pip_package_version("torch", "pip3", &vec![]), command("pip3 show torch"));
    assert_eq!(
        get_pip_package_version("torch", "pip3", &vec![ok("Name: torch\nVersion: 2.1.0\n")]),
        found("2.1.0")
    );
    assert_eq!(
        get_pip_package_version("torch", "pip3", &vec![ok("WARNING: Package(s) not found: torch\n")]),
        missing("Package torch not found with pip3")
    );
    assert_eq!(
        get_pip_package_version("torch", "pip3", &vec![fail("sh: pip3: not found")]),
        missing("sh: pip3: not found")
    );
}

#[test]
fn conda_package_version_builds_command_and_reads_answer() {
    assert_eq!(get_conda_package_version("pytorch", &vec![]), command("conda list pytorch"));
    assert_eq!(
        get_conda_package_version("pytorch", &vec![ok("pytorch 2.1.0 py311\n")]),
        found("2.1.0")
    );
    assert_eq!(
        get_conda_package_version("pytorch", &vec![ok("# empty\n")]),
        missing("Package pytorch not found with conda")
    );
    assert_eq!(get_conda_package_version("pytorch", &vec![fail("no conda")]), missing("no conda"));
}

#[test]
fn parse_with_applies_the_named_parser() {
    assert_eq!(parse_with(Parser::Trimmed, " 535.86\n"), Some("535.86".to_string()));
    assert_eq!(parse_with(Parser::Trimmed, " \n"), None);
    assert_eq!(parse_with(Parser::PrintedValue, "None"), None);
    assert_eq!(parse_with(Parser::ModuleVersion, "2.0\n"), Some("2.0".to_string()));
    assert_eq!(parse_with(Parser::PipShow, "Version: 1.0"), Some("1.0".to_string()));
    assert_eq!(
        parse_with(Parser::CondaList(Package::Torch), "pytorch 1\ntorch 2\ntensorflow 3"),
        Some("2".to_string())
    );
    assert_eq!(
        parse_with(Parser::CondaList(Package::PyTorch), "pytorch 1\ntorch 2\ntensorflow 3"),
        Some("1".to_string())
    );
    assert_eq!(
        parse_with(Parser::CondaList(Package::TensorFlow), "pytorch 1\ntorch 2\ntensorflow 3"),
        Some("3".to_string())
    );
    assert_eq!(parse_with(Parser::BannerVersion, "V1.2.3"), Some("1.2.3".to_string()));
    assert_eq!(parse_with(Parser::ReleaseVersion, "V1.2.3"), None);
    assert_eq!(parse_with(Parser::VersionFile, "CUDA Version 11.0.207"), Some("11.0".to_string()));
    assert_eq!(
        parse_with(Parser::HeaderVersion, "#define CUDNN_MAJOR 1\n#define CUDNN_MINOR 2\n#define CUDNN_PATCHLEVEL 3"),
        Some("1.2.3".to_string())
    );
}

#[test]
fn interpret_exit_reports_code_and_standard_error() {
    assert_eq!(interpret_exit(true, Some(0), "out", "err"), ok("out"));
    assert_eq!(
        interpret_exit(false, Some(127), "out", "sh: nvcc: not found\n"),
        fail("Command failed with exit code 127: sh: nvcc: not found\n")
    );
    assert_eq!(interpret_exit(false, None, "", "killed"), fail("Command failed with exit code -1: killed"));
    assert_eq!(interpret_exit(false, Some(-5), "", ""), fail("Command failed with exit code -5: "));
    assert_eq!(
        interpret_exit(false, Some(i32::MIN), "", ""),
        fail("Command failed with exit code -2147483648: ")
    );
}

#[test]
fn shell_depends_on_platform() {
    assert_eq!(shell_of(Platform::Windows), ("cmd", "/C"));
    assert_eq!(shell_of(Platform::Linux), ("sh", "-c"));
    assert_eq!(shell_of(Platform::MacOs), ("sh", "-c"));
}

#[test]
fn version_query_quotes_the_path_where_asked() {
    assert_eq!(
        version_query_command("/usr/bin/nvcc", FollowUp::QueryVersion),
        Some("/usr/bin/nvcc --version".to_string())
    );
    assert_eq!(
        version_query_command("/opt/my cuda/nvcc", FollowUp::QueryVersionQuoted),
        Some("\"/opt/my cuda/nvcc\" --version".to_string())
    );
    assert_eq!(version_query_command("/usr/include/cudnn_version.h", FollowUp::ReadContents), None);
}
