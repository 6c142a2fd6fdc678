use cuda_doctor::advice::{
    show_compatibility_matrix, suggest_cuda_toolkit_fix, suggest_cudnn_fix, suggest_nvidia_driver_fix,
    suggest_nvidia_gpu_fix, suggest_pytorch_fix, suggest_tensorflow_fix,
};
use cuda_doctor::checks::{
    check_cuda_updates, check_for_updates, check_nvidia_driver_updates, check_pytorch_updates,
    check_tensorflow_updates, validate_configuration, validate_environment_variables,
    validate_library_linking, validate_network_access, validate_permissions,
};
use cuda_doctor::probe::{Platform, Probe, ProbeResult, Step};
use cuda_doctor::report::{
    abbreviate, check_environment_variables, command_for_script, describe_variable,
    get_python_info, important_variable_names, indent_lines, lookup,
    monitor_system_during_load, run_benchmarks, test_cuda_performance, test_gpu_memory,
    test_pytorch_gpu, test_tensorflow_gpu,
};

fn ok(text: &str) -> ProbeResult {
    ProbeResult::Success(text.to_string())
}

fn fail(text: &str) -> ProbeResult {
    ProbeResult::Failure(text.to_string())
}

fn command(text: &str) -> Step {
    Step::Probe(Probe::Command { command: text.to_string() })
}

fn found(text: &str) -> Step {
    Step::Done(Ok(text.to_string()))
}

fn env(pairs: &[(&str, &str)]) -> Vec<(String, String)> {
    pairs.iter().map(|(k, v)| (k.to_string(), v.to_string())).collect()
}

#[test]
fn lookup_finds_first_binding() {
    let e = env(&[("A", "1"), ("B", "2"), ("A", "3")]);
    assert_eq!(lookup(&e, "A"), Some(&"1".to_string()));
    assert_eq!(lookup(&e, "B"), Some(&"2".to_string()));
    assert_eq!(lookup(&e, "C"), None);
    assert_eq!(lookup(&e, "a"), None);
}

#[test]
fn python_info_asks_interpreter_then_pip() {
    let e = env(&[("VIRTUAL_ENV", "/home/me/venv")]);
    assert_eq!(get_python_info(&vec![], &e), command("python --version"));
    assert_eq!(get_python_info(&vec![ok("Python 3.11.4\n")], &e), command("pip --version"));
    assert_eq!(get_python_info(&vec![fail("x")], &e), command("python3 --version"));
    assert_eq!(get_python_info(&vec![fail("x"), ok("Python 3.9.1\n")], &e), command("pip --version"));
    assert_eq!(get_python_info(&vec![fail("x"), fail("y")], &e), command("pip --version"));
}

#[test]
fn python_info_makes_the_report() {
    let e = env(&[("VIRTUAL_ENV", "/home/me/venv")]);
    assert_eq!(
        get_python_info(&vec![ok("Python 3.11.4\n"), ok("pip 23.2.1 from /usr/lib/python3 (python 3.11)\n")], &e),
        found("   Python: Python 3.11.4\n   Pip: 23.2.1\n   Virtual Env: /home/me/venv\n")
    );
    assert_eq!(
        get_python_info(&vec![fail("x"), ok("Python 3.9.1\n"), fail("no pip")], &vec![]),
        found("   Python: Python 3.9.1\n   Virtual Env: None\n")
    );
    assert_eq!(
        get_python_info(&vec![fail("x"), fail("y"), ok("pip\n")], &vec![]),
        found("   Python: Not found\n   Pip: unknown\n   Virtual Env: None\n")
    );
}

#[test]
fn long_values_are_abbreviated() {
    let sixty = "a".repeat(60);
    assert_eq!(abbreviate(&sixty), sixty);
    let sixty_one = "b".repeat(61);
    assert_eq!(abbreviate(&sixty_one), format!("{}...", "b".repeat(57)));
    assert_eq!(abbreviate(""), "");
}

#[test]
fn variable_lines_show_value_or_not_set() {
    assert_eq!(describe_variable("CUDA_HOME", Some(&"/usr/local/cuda".to_string())), "   CUDA_HOME: /usr/local/cuda\n");
    assert_eq!(describe_variable("CUDA_HOME", None), "   CUDA_HOME: Not set\n");
}

#[test]
fn environment_report_covers_the_important_variables() {
    assert_eq!(
        important_variable_names(),
        vec!["CUDA_PATH", "CUDA_HOME", "PATH", "LD_LIBRARY_PATH", "PYTHONPATH", "VIRTUAL_ENV", "CONDA_DEFAULT_ENV"]
    );
    let e = env(&[("PATH", "/usr/bin"), ("CONDA_DEFAULT_ENV", "base"), ("HOME", "/root")]);
    assert_eq!(
        check_environment_variables(&e),
        "   CUDA_PATH: Not set\n   CUDA_HOME: Not set\n   PATH: /usr/bin\n   LD_LIBRARY_PATH: Not set\n   PYTHONPATH: Not set\n   VIRTUAL_ENV: Not set\n   CONDA_DEFAULT_ENV: base\n"
    );
}

#[test]
fn script_command_wraps_the_script() {
    assert_eq!(command_for_script("print(1)"), "python -c \"print(1)\"");
}

#[test]
fn script_output_is_indented() {
    assert_eq!(indent_lines("a\n\nb"), "   a\n   \n   b\n");
    assert_eq!(indent_lines(""), "");
    assert_eq!(test_gpu_memory(&ok("GPU: T4\nTotal Memory: 15.8 GB\n")), "   GPU: T4\n   Total Memory: 15.8 GB\n");
    assert_eq!(test_gpu_memory(&fail("x")), "   ❌ Memory test failed - PyTorch not available\n");
    assert_eq!(test_cuda_performance(&fail("x")), "   ❌ CUDA performance test failed\n");
    assert_eq!(test_tensorflow_gpu(&fail("x")), "   ❌ TensorFlow test failed\n");
    assert_eq!(test_pytorch_gpu(&fail("x")), "   ❌ PyTorch test failed\n");
    assert_eq!(test_pytorch_gpu(&ok("PyTorch 2.1.0")), "   PyTorch 2.1.0\n");
}

#[test]
fn monitor_report_lists_each_device() {
    assert_eq!(
        monitor_system_during_load(&ok("41, 27.5, 17\nbroken\n55, 120.0, 99\n")),
        "   Current GPU Status:\n   GPU 0: 41°C, 27.5W, 17% utilization\n   GPU 2: 55°C, 120.0W, 99% utilization\n"
    );
    assert_eq!(monitor_system_during_load(&fail("x")), "   ❌ Unable to monitor GPU status\n");
}

#[test]
fn benchmarks_run_five_commands_whatever_they_give() {
    let mut history = vec![];
    for expected_start in ["python -c \"\nimport torch\nimport time", "python -c \"\nimport time\ntry:\n    import torch", "python -c \"\ntry:\n    import tensorflow", "python -c \"\ntry:\n    import torch", "nvidia-smi --query-gpu=temperature.gpu"] {
        match run_benchmarks(&history) {
            Step::Probe(Probe::Command { command }) => assert!(command.starts_with(expected_start), "{}", command),
            other => panic!("unexpected step {:?}", other),
        }
        history.push(fail("x"));
    }
    assert_eq!(
        run_benchmarks(&history),
        found("⚡ GPU Memory Test...\n   ❌ Memory test failed - PyTorch not available\n\n🧮 CUDA Performance Test...\n   ❌ CUDA performance test failed\n\n🔥 TensorFlow GPU Test...\n   ❌ TensorFlow test failed\n\n🚀 PyTorch GPU Test...\n   ❌ PyTorch test failed\n\n🌡️  System Monitoring...\n   ❌ Unable to monitor GPU status\n")
    );
}

#[test]
fn update_notices_show_trimmed_version() {
    assert_eq!(
        check_nvidia_driver_updates(&Ok("535.86.05".to_string())),
        "   Current Driver: 535.86.05\n   Latest Info: Check https://www.nvidia.com/Download/index.aspx\n   💡 Tip: Use GeForce Experience for automatic updates\n"
    );
    assert_eq!(check_nvidia_driver_updates(&Err("x".to_string())), "   ❌ No NVIDIA driver detected\n");
    assert_eq!(
        check_tensorflow_updates(&Ok("2.15.0".to_string())),
        "   Current TensorFlow: 2.15.0\n   Check latest: pip list --outdated | grep tensorflow\n   Update: pip install --upgrade tensorflow\n"
    );
    assert_eq!(check_tensorflow_updates(&Err("x".to_string())), "   ❌ TensorFlow not installed\n");
    assert_eq!(
        check_pytorch_updates(&Ok(" 2.1.0 ".to_string())),
        "   Current PyTorch: 2.1.0\n   Check latest: pip list --outdated | grep torch\n   Update: Visit https://pytorch.org/get-started/locally/\n"
    );
    assert_eq!(check_pytorch_updates(&Err("x".to_string())), "   ❌ PyTorch not installed\n");
    assert!(check_cuda_updates().starts_with("   Current CUDA: Check with 'nvcc --version'\n"));
}

#[test]
fn updates_report_has_four_sections() {
    let report = check_for_updates(&Err("a".to_string()), &Err("b".to_string()), &Ok("2.1.0".to_string()));
    assert_eq!(
        report,
        "=== 🔄 Checking for Updates ===\n\n🔧 NVIDIA Driver Updates:\n   ❌ No NVIDIA driver detected\n\n⚙️  CUDA Toolkit Updates:\n   Current CUDA: Check with 'nvcc --version'\n   Latest Info: https://developer.nvidia.com/cuda-downloads\n   💡 Tip: CUDA 12.x recommended for latest frameworks\n\n🔥 TensorFlow Updates:\n   ❌ TensorFlow not installed\n\n🚀 PyTorch Updates:\n   Current PyTorch: 2.1.0\n   Check latest: pip list --outdated | grep torch\n   Update: Visit https://pytorch.org/get-started/locally/\n"
    );
}

#[test]
fn settings_report_counts_bytes() {
    let e = env(&[("CUDA_HOME", "/usr/local/cuda"), ("PATH", "é")]);
    assert_eq!(
        validate_environment_variables(&e),
        "   ⚠️  CUDA_PATH: Not set (CUDA installation path)\n   ✅ CUDA_HOME: Set (15 chars)\n   ✅ PATH: Set (2 chars)\n   ⚠️  LD_LIBRARY_PATH: Not set (Should include CUDA lib64 (Linux))\n"
    );
}

#[test]
fn settings_report_explains_on_request() {
    let e = env(&[("CUDA_HOME", ""), ("VERBOSE_ENV_CHECK", "")]);
    assert_eq!(
        validate_environment_variables(&e),
        "   ⚠️  CUDA_PATH: Not set (CUDA installation path)\n   ✅ CUDA_HOME: Set (0 chars)\n      Description: CUDA home directory\n   ⚠️  PATH: Not set (Should include CUDA bin directory)\n   ⚠️  LD_LIBRARY_PATH: Not set (Should include CUDA lib64 (Linux))\n"
    );
}

#[test]
fn linking_check_asks_the_linker_on_linux() {
    assert_eq!(validate_library_linking(Platform::Linux, &vec![]), command("ldconfig -p | grep libcuda.so.1"));
    assert_eq!(validate_library_linking(Platform::Linux, &vec![ok("x")]), command("ldconfig -p | grep libcudart.so"));
    assert_eq!(
        validate_library_linking(Platform::Linux, &vec![ok("x"), ok("")]),
        command("ldconfig -p | grep libcublas.so")
    );
    assert_eq!(
        validate_library_linking(Platform::Linux, &vec![ok("x"), ok(""), fail("y")]),
        command("ldconfig -p | grep libcudnn.so")
    );
    assert_eq!(
        validate_library_linking(Platform::Linux, &vec![ok("\tlibcuda.so.1 => /usr/lib\n"), ok(" \n"), fail("y"), ok("z")]),
        found("   ✅ libcuda.so.1: Found\n   ❌ libcudart.so: Not found (CUDA runtime library)\n   ⚠️  libcublas.so: Cannot check (CUDA BLAS library)\n   ✅ libcudnn.so: Found\n")
    );
}

#[test]
fn linking_check_is_not_made_elsewhere() {
    assert_eq!(
        validate_library_linking(Platform::Windows, &vec![]),
        found("   ⚠️  Library checking not implemented for this OS\n")
    );
    assert_eq!(
        validate_library_linking(Platform::MacOs, &vec![ok("x")]),
        found("   ⚠️  Library checking not implemented for this OS\n")
    );
}

#[test]
fn permissions_report_depends_on_the_device_file() {
    assert_eq!(validate_permissions(Platform::Linux, false, false), "   ❌ NVIDIA device files not found\n");
    assert_eq!(validate_permissions(Platform::Linux, false, true), "   ❌ NVIDIA device files not found\n");
    assert_eq!(
        validate_permissions(Platform::Linux, true, true),
        "   ✅ NVIDIA device files exist\n   ✅ NVIDIA device accessible\n"
    );
    assert_eq!(
        validate_permissions(Platform::Linux, true, false),
        "   ✅ NVIDIA device files exist\n   ❌ NVIDIA device not accessible - check permissions\n"
    );
    assert_eq!(
        validate_permissions(Platform::Windows, true, true),
        "   ⚠️  Permission checking not implemented for this OS\n"
    );
}

#[test]
fn validation_puts_the_parts_together() {
    assert_eq!(
        validate_configuration(Platform::Linux, &vec![], true, true, &vec![]),
        command("ldconfig -p | grep libcuda.so.1")
    );
    assert_eq!(
        validate_configuration(Platform::MacOs, &env(&[("PATH", "/bin")]), false, false, &vec![]),
        found(&format!(
            "=== ✅ Configuration Validation ===\n\n📝 Environment Variables:\n   ⚠️  CUDA_PATH: Not set (CUDA installation path)\n   ⚠️  CUDA_HOME: Not set (CUDA home directory)\n   ✅ PATH: Set (4 chars)\n   ⚠️  LD_LIBRARY_PATH: Not set (Should include CUDA lib64 (Linux))\n\n🔗 Library Linking:\n   ⚠️  Library checking not implemented for this OS\n\n🛡️  Permissions:\n   ⚠️  Permission checking not implemented for this OS\n\n🌐 Network/Firewall:\n{}",
            validate_network_access()
        ))
    );
    assert_eq!(
        validate_network_access(),
        "   💡 Network validation not implemented yet\n   💡 Manually check: Can access nvidia.com, pytorch.org, tensorflow.org\n"
    );
}

#[test]
fn advice_depends_on_platform_where_it_should() {
    assert!(suggest_nvidia_gpu_fix(Platform::Windows).contains("Windows Device Manager"));
    assert!(suggest_nvidia_gpu_fix(Platform::Linux).contains("lspci | grep -i nvidia"));
    assert!(suggest_nvidia_gpu_fix(Platform::MacOs).contains("macOS Note"));
    assert!(suggest_nvidia_driver_fix(Platform::Windows).contains("Run installer as Administrator"));
    assert!(suggest_nvidia_driver_fix(Platform::Linux).contains("sudo pacman -S nvidia nvidia-utils"));
    assert_eq!(suggest_nvidia_driver_fix(Platform::Linux), suggest_nvidia_driver_fix(Platform::MacOs));
    assert!(suggest_cuda_toolkit_fix(Platform::Windows).contains("CUDA_PATH: C:\\Program Files"));
    assert!(suggest_cuda_toolkit_fix(Platform::Linux).ends_with("✅ Verify: nvcc --version"));
    assert_eq!(suggest_cuda_toolkit_fix(Platform::Linux), suggest_cuda_toolkit_fix(Platform::MacOs));
}

#[test]
fn advice_texts_begin_with_their_titles() {
    for platform in [Platform::Windows, Platform::Linux, Platform::MacOs] {
        assert!(suggest_nvidia_gpu_fix(platform).starts_with("💡 NVIDIA GPU Not Found - Possible Fixes:\n"));
        assert!(suggest_nvidia_driver_fix(platform).starts_with("💡 NVIDIA Driver Not Found - Installation Guide:\n"));
        assert!(suggest_cuda_toolkit_fix(platform).starts_with("💡 CUDA Toolkit Not Found - Installation Guide:\n"));
    }
    assert!(suggest_cudnn_fix().starts_with("💡 cuDNN Not Found - Installation Guide:\n"));
    assert!(suggest_cudnn_fix().ends_with("Python: import torch; print(torch.backends.cudnn.version())"));
    assert!(suggest_tensorflow_fix().starts_with("💡 TensorFlow Not Found - Installation Guide:\n"));
    assert!(suggest_tensorflow_fix().ends_with("📚 Official Guide: https://www.tensorflow.org/install"));
    assert!(suggest_pytorch_fix().starts_with("💡 PyTorch Not Found - Installation Guide:\n"));
    assert!(suggest_pytorch_fix().ends_with("📚 Official Guide: https://pytorch.org/get-started/locally/"));
}

#[test]
fn compatibility_matrix_has_every_section() {
    let matrix = show_compatibility_matrix();
    assert!(matrix.starts_with("=== 🔗 Version Compatibility Matrix ===\n\n📊 CUDA ↔ Driver Compatibility:\n   CUDA 12.3+  → Driver 545.23+\n"));
    assert!(matrix.contains("\n🔥 TensorFlow ↔ CUDA Compatibility:\n"));
    assert!(matrix.contains("\n🚀 PyTorch ↔ CUDA Compatibility:\n"));
    assert!(matrix.contains("\n🐍 Python Version Requirements:\n"));
    assert!(matrix.contains("\n💡 Compute Capability Requirements:\n"));
    assert!(matrix.ends_with("   🛡️  Long Term Support: CUDA 11.2 + cuDNN 8.1 + TensorFlow 2.10 + PyTorch 1.13\n"));
    assert_eq!(matrix.lines().count(), 41);
}
