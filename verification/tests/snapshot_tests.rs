use cuda_doctor::probe::ProbeResult;
use cuda_doctor::snapshot::{
    collect_environment_config, found_value, get_gpu_list, text_or_empty, CudaInfo, Detections,
    EnvironmentConfig, FrameworkInfo, GpuInfo, HostFacts, SystemInfo, Timestamp,
};
use cuda_doctor::text::parse_decimal;

fn ok(text: &str) -> Result<String, String> {
    Ok(text.to_string())
}

fn err(text: &str) -> Result<String, String> {
    Err(text.to_string())
}

fn host() -> HostFacts {
    HostFacts {
        os_name: Some("Ubuntu".to_string()),
        os_version: Some("22.04".to_string()),
        arch: "x86_64".to_string(),
        cpu_brand: Some("AMD Ryzen 9 5950X".to_string()),
        total_memory_bytes: 68719476736,
        hostname: Some("trainer".to_string()),
    }
}

#[test]
fn gpu_list_reads_name_and_memory() {
    let raw = ProbeResult::Success("NVIDIA GeForce RTX 3090, 24576\nTesla T4, 15360\n".to_string());
    assert_eq!(
        get_gpu_list(&raw),
        vec![
            GpuInfo { name: "NVIDIA GeForce RTX 3090".to_string(), memory_mib: Some(24576), compute_capability: None },
            GpuInfo { name: "Tesla T4".to_string(), memory_mib: Some(15360), compute_capability: None },
        ]
    );
}

#[test]
fn gpu_list_tolerates_missing_memory_and_short_lines() {
    let raw = ProbeResult::Success("Tesla T4, [N/A]\nno comma here\nA100, \n".to_string());
    assert_eq!(
        get_gpu_list(&raw),
        vec![
            GpuInfo { name: "Tesla T4".to_string(), memory_mib: None, compute_capability: None },
            GpuInfo { name: "A100".to_string(), memory_mib: None, compute_capability: None },
        ]
    );
}

#[test]
fn gpu_list_is_empty_without_devices() {
    assert_eq!(get_gpu_list(&ProbeResult::Failure("no nvidia-smi".to_string())), vec![]);
    assert_eq!(get_gpu_list(&ProbeResult::Success(String::new())), vec![]);
}

#[test]
fn decimal_parsing_accepts_digits_only() {
    let chars = |s: &str| s.chars().collect::<Vec<char>>();
    assert_eq!(parse_decimal(&chars("0")), Some(0));
    assert_eq!(parse_decimal(&chars("0042")), Some(42));
    assert_eq!(parse_decimal(&chars("18446744073709551615")), Some(u64::MAX));
    assert_eq!(parse_decimal(&chars("18446744073709551616")), None);
    assert_eq!(parse_decimal(&chars("99999999999999999999999")), None);
    assert_eq!(parse_decimal(&chars("")), None);
    assert_eq!(parse_decimal(&chars("12.5")), None);
    assert_eq!(parse_decimal(&chars("+5")), None);
    assert_eq!(parse_decimal(&chars("-5")), None);
    assert_eq!(parse_decimal(&chars("1e3")), None);
    assert_eq!(parse_decimal(&chars("١٢")), None);
}

#[test]
fn found_value_keeps_only_what_was_found() {
    assert_eq!(found_value(ok("12.2")), Some("12.2".to_string()));
    assert_eq!(found_value(err("CUDA Toolkit not found")), None);
    assert_eq!(text_or_empty(None), "");
    assert_eq!(text_or_empty(Some("x".to_string())), "x");
}

#[test]
fn snapshot_holds_every_fact() {
    let detections = Detections {
        python: ok("Python 3.11.4"),
        driver: ok("535.86.05"),
        toolkit: ok("12.2"),
        cudnn: ok("8.9.2"),
        gpus: vec![GpuInfo { name: "Tesla T4".to_string(), memory_mib: Some(15360), compute_capability: None }],
        tensorflow: ok("2.15.0"),
        pytorch: ok("2.1.0+cu121"),
    };
    let now = Timestamp { seconds: 1700000000, nanoseconds: 123456789 };
    assert_eq!(
        collect_environment_config(host(), detections, now),
        EnvironmentConfig {
            system_info: SystemInfo {
                os: "Ubuntu 22.04".to_string(),
                arch: "x86_64".to_string(),
                cpu: "AMD Ryzen 9 5950X".to_string(),
                total_memory_bytes: 68719476736,
                python_version: Some("Python 3.11.4".to_string()),
            },
            cuda_info: CudaInfo {
                driver_version: Some("535.86.05".to_string()),
                cuda_version: Some("12.2".to_string()),
                cudnn_version: Some("8.9.2".to_string()),
                gpus: vec![GpuInfo { name: "Tesla T4".to_string(), memory_mib: Some(15360), compute_capability: None }],
            },
            frameworks: FrameworkInfo {
                tensorflow: Some("2.15.0".to_string()),
                pytorch: Some("2.1.0+cu121".to_string()),
            },
            timestamp: now,
            hostname: "trainer".to_string(),
        }
    );
}

#[test]
fn snapshot_of_a_bare_machine_has_nothing_detected() {
    let bare = HostFacts {
        os_name: None,
        os_version: None,
        arch: "aarch64".to_string(),
        cpu_brand: None,
        total_memory_bytes: 0,
        hostname: None,
    };
    let detections = Detections {
        python: err("Python not found"),
        driver: err("Command failed with exit code 127: "),
        toolkit: err("CUDA Toolkit not found"),
        cudnn: err("cuDNN version not found"),
        gpus: vec![],
        tensorflow: err("TensorFlow not found or not installed"),
        pytorch: err("PyTorch not found or not installed"),
    };
    let now = Timestamp { seconds: 0, nanoseconds: 0 };
    let snapshot = collect_environment_config(bare, detections, now);
    assert_eq!(snapshot.system_info.os, " ");
    assert_eq!(snapshot.system_info.cpu, "");
    assert_eq!(snapshot.hostname, "");
    assert_eq!(snapshot.system_info.python_version, None);
    assert_eq!(snapshot.cuda_info.driver_version, None);
    assert_eq!(snapshot.cuda_info.cuda_version, None);
    assert_eq!(snapshot.cuda_info.cudnn_version, None);
    assert!(snapshot.cuda_info.gpus.is_empty());
    assert_eq!(snapshot.frameworks, FrameworkInfo { tensorflow: None, pytorch: None });
}

#[test]
fn absent_value_differs_from_empty_value() {
    assert_ne!(found_value(ok("")), found_value(err("")));
    assert_eq!(found_value(ok("")), Some(String::new()));
}
