use cuda_doctor::reconcile::{
    classify_values, compare_environments, compare_versions, comparison_report, describe_moment,
    moment_or_seconds, Classification, ReconciliationEntry,
};
use cuda_doctor::snapshot::{
    CudaInfo, EnvironmentConfig, FrameworkInfo, SystemInfo, Timestamp,
};

fn some(text: &str) -> Option<String> {
    Some(text.to_string())
}

fn snapshot(os: &str, cuda: Option<&str>, pytorch: Option<&str>) -> EnvironmentConfig {
    EnvironmentConfig {
        system_info: SystemInfo {
            os: os.to_string(),
            arch: "x86_64".to_string(),
            cpu: "AMD Ryzen 9".to_string(),
            total_memory_bytes: 34359738368,
            python_version: some("Python 3.11.4"),
        },
        cuda_info: CudaInfo {
            driver_version: some("535.86.05"),
            cuda_version: cuda.map(|v| v.to_string()),
            cudnn_version: None,
            gpus: vec![],
        },
        frameworks: FrameworkInfo { tensorflow: None, pytorch: pytorch.map(|v| v.to_string()) },
        timestamp: Timestamp { seconds: 1700000000, nanoseconds: 0 },
        hostname: "box".to_string(),
    }
}

#[test]
fn classification_follows_the_table() {
    assert_eq!(classify_values(&some("12.2"), &some("12.2")), Classification::Match);
    assert_eq!(classify_values(&some("12.2"), &some("12.1")), Classification::Mismatch);
    assert_eq!(classify_values(&some("12.2"), &None), Classification::LocalOnly);
    assert_eq!(classify_values(&None, &some("12.2")), Classification::RemoteOnly);
    assert_eq!(classify_values(&None, &None), Classification::BothAbsent);
}

#[test]
fn classification_compares_text_not_numbers() {
    assert_eq!(classify_values(&some("12.2"), &some("12.2.140")), Classification::Mismatch);
    assert_eq!(classify_values(&some("12.2"), &some("V12.2")), Classification::Mismatch);
    assert_eq!(classify_values(&some("12.20"), &some("12.2")), Classification::Mismatch);
    assert_eq!(classify_values(&some(""), &None), Classification::LocalOnly);
    assert_eq!(classify_values(&some(""), &some("")), Classification::Match);
}

#[test]
fn swapping_sides_swaps_local_only_and_remote_only() {
    assert_eq!(classify_values(&some("12.2"), &None), Classification::LocalOnly);
    assert_eq!(classify_values(&None, &some("12.2")), Classification::RemoteOnly);
    assert_eq!(
        classify_values(&some("a"), &some("b")),
        classify_values(&some("b"), &some("a"))
    );
}

#[test]
fn compare_versions_keeps_both_values() {
    assert_eq!(
        compare_versions("CUDA", &some("12.2"), &some("12.1")),
        ReconciliationEntry {
            field: "CUDA".to_string(),
            classification: Classification::Mismatch,
            local: some("12.2"),
            remote: some("12.1"),
        }
    );
}

#[test]
fn end_to_end_mismatch_and_remote_only() {
    let local = snapshot("Ubuntu 22.04", Some("12.2"), None);
    let remote = snapshot("Ubuntu 22.04", Some("12.1"), Some("2.1.0"));
    let entries = compare_environments(&local, &remote);
    let names: Vec<&str> = entries.iter().map(|e| e.field.as_str()).collect();
    assert_eq!(names, vec!["System", "Driver", "CUDA", "cuDNN", "TensorFlow", "PyTorch"]);
    assert_eq!(entries[0].classification, Classification::Match);
    assert_eq!(entries[1].classification, Classification::Match);
    assert_eq!(entries[2].classification, Classification::Mismatch);
    assert_eq!(entries[2].local, some("12.2"));
    assert_eq!(entries[2].remote, some("12.1"));
    assert_eq!(entries[3].classification, Classification::BothAbsent);
    assert_eq!(entries[4].classification, Classification::BothAbsent);
    assert_eq!(entries[5].classification, Classification::RemoteOnly);
    assert_eq!(entries[5].local, None);
    assert_eq!(entries[5].remote, some("2.1.0"));
}

#[test]
fn comparison_is_mirrored_when_sides_are_swapped() {
    let local = snapshot("Ubuntu 22.04", Some("12.2"), None);
    let remote = snapshot("Windows 11", None, Some("2.1.0"));
    let forth = compare_environments(&local, &remote);
    let back = compare_environments(&remote, &local);
    assert_eq!(forth[0].classification, Classification::Mismatch);
    assert_eq!(back[0].classification, Classification::Mismatch);
    assert_eq!(forth[2].classification, Classification::LocalOnly);
    assert_eq!(back[2].classification, Classification::RemoteOnly);
    assert_eq!(forth[5].classification, Classification::RemoteOnly);
    assert_eq!(back[5].classification, Classification::LocalOnly);
    assert_eq!(forth[5].remote, back[5].local);
}

#[test]
fn entry_lines_show_the_values() {
    assert_eq!(
        compare_versions("CUDA", &some("12.2"), &some("12.2")).describe(),
        "   ✅ CUDA: 12.2 (matches)\n"
    );
    assert_eq!(
        compare_versions("CUDA", &some("12.2"), &some("12.1")).describe(),
        "   ⚠️  CUDA: 12.2 vs 12.1 (different)\n"
    );
    assert_eq!(
        compare_versions("Driver", &some("535"), &None).describe(),
        "   ➕ Driver: 535 (not in import)\n"
    );
    assert_eq!(
        compare_versions("PyTorch", &None, &some("2.1.0")).describe(),
        "   ➖ PyTorch: 2.1.0 (missing locally)\n"
    );
    assert_eq!(
        compare_versions("cuDNN", &None, &None).describe(),
        "   ❌ cuDNN: Not available in either\n"
    );
}

#[test]
fn moment_is_written_by_the_calendar() {
    assert_eq!(describe_moment(Timestamp { seconds: 0, nanoseconds: 0 }), "1970-01-01 00:00:00 UTC");
    assert_eq!(
        describe_moment(Timestamp { seconds: 1700000000, nanoseconds: 999 }),
        "2023-11-14 22:13:20 UTC"
    );
    assert_eq!(describe_moment(Timestamp { seconds: -1, nanoseconds: 0 }), "1969-12-31 23:59:59 UTC");
}

#[test]
fn moment_out_of_range_is_written_in_seconds() {
    assert_eq!(
        describe_moment(Timestamp { seconds: i64::MAX, nanoseconds: 0 }),
        "9223372036854775807"
    );
    assert_eq!(
        describe_moment(Timestamp { seconds: i64::MIN, nanoseconds: 0 }),
        "-9223372036854775808"
    );
    assert_eq!(moment_or_seconds(None, -12), "-12");
    assert_eq!(moment_or_seconds(some("then"), -12), "then");
}

#[test]
fn report_puts_everything_under_its_heading() {
    let local = snapshot("Ubuntu 22.04", Some("12.2"), None);
    let remote = snapshot("Windows 11", Some("12.1"), Some("2.1.0"));
    assert_eq!(
        comparison_report(&local, &remote),
        "\n=== 📊 Environment Comparison ===\n\n🖥️  System Comparison:\n   Current:  Ubuntu 22.04 (x86_64)\n   Imported: Windows 11 (x86_64)\n   ⚠️  Different operating systems detected!\n\n🔧 CUDA Comparison:\n   ✅ Driver: 535.86.05 (matches)\n   ⚠️  CUDA: 12.2 vs 12.1 (different)\n   ❌ cuDNN: Not available in either\n\n🤖 Framework Comparison:\n   ❌ TensorFlow: Not available in either\n   ➖ PyTorch: 2.1.0 (missing locally)\n\n📅 Import Info:\n   Exported: 2023-11-14 22:13:20 UTC\n   Hostname: box\n"
    );
}

#[test]
fn report_has_no_warning_for_the_same_system() {
    let local = snapshot("Ubuntu 22.04", None, None);
    let remote = snapshot("Ubuntu 22.04", None, None);
    assert!(!comparison_report(&local, &remote).contains("Different operating systems"));
}
