use cuda_doctor::gpu::{
    check_multiple_gpus, check_nvidia_gpu, get_detailed_gpu_info, get_nvidia_driver_version,
    names_gpu, read_gpu_listing, run_benchmark, split_csv, write_detail_report,
    write_status_report,
};
use cuda_doctor::probe::{Platform, Probe, ProbeResult, Step};

fn ok(text: &str) -> ProbeResult {
    ProbeResult::Success(text.to_string())
}

fn fail(text: &str) -> ProbeResult {
    ProbeResult::Failure(text.to_string())
}

fn command(text: &str) -> Step {
    Step::Probe(Probe::Command { command: text.to_string() })
}

fn found(text: &str) -> Step {
    Step::Done(Ok(text.to_string()))
}

fn missing(text: &str) -> Step {
    Step::Done(Err(text.to_string()))
}

fn chars(s: &str) -> Vec<char> {
    s.chars().collect()
}

const LSPCI: &str = "00:02.0 VGA compatible controller: Intel Corporation UHD Graphics\n01:00.0 VGA compatible controller: NVIDIA Corporation GA102 [GeForce RTX 3090]\n01:00.1 Audio device: nvidia Corporation GA102 High Definition Audio Controller\n";

#[test]
fn gpu_line_is_recognised_whatever_its_case() {
    assert!(names_gpu(Platform::Linux, &chars("01:00.0 VGA: NVIDIA Corporation")));
    assert!(names_gpu(Platform::Linux, &chars("nVidia")));
    assert!(!names_gpu(Platform::Linux, &chars("Intel Corporation")));
    assert!(!names_gpu(Platform::Linux, &chars("")));
    assert!(names_gpu(Platform::Windows, &chars("NVIDIA GeForce RTX 3090  ")));
    assert!(!names_gpu(Platform::Windows, &chars("Name")));
}

#[test]
fn gpu_listing_joins_matching_lines() {
    assert_eq!(
        read_gpu_listing(Platform::Linux, LSPCI),
        Ok("01:00.0 VGA compatible controller: NVIDIA Corporation GA102 [GeForce RTX 3090], 01:00.1 Audio device: nvidia Corporation GA102 High Definition Audio Controller".to_string())
    );
    assert_eq!(
        read_gpu_listing(Platform::Windows, "Name\r\nNVIDIA GeForce RTX 3090  \r\nIntel(R) UHD\r\n"),
        Ok("NVIDIA GeForce RTX 3090  ".to_string())
    );
}

#[test]
fn gpu_listing_without_match_is_an_error() {
    assert_eq!(read_gpu_listing(Platform::Linux, "Intel\nAMD\n"), Err("No NVIDIA GPUs found".to_string()));
    assert_eq!(read_gpu_listing(Platform::Windows, ""), Err("No NVIDIA GPUs found".to_string()));
    assert_eq!(
        read_gpu_listing(Platform::MacOs, "Apple M2\n"),
        Err("No NVIDIA GPUs found (Note: Modern macOS doesn't support NVIDIA GPUs)".to_string())
    );
}

#[test]
fn check_nvidia_gpu_asks_for_the_listing_of_the_platform() {
    assert_eq!(check_nvidia_gpu(Platform::Linux, &vec![]), command("lspci"));
    assert_eq!(
        check_nvidia_gpu(Platform::Windows, &vec![]),
        command("wmic path win32_videocontroller get name")
    );
    assert_eq!(check_nvidia_gpu(Platform::MacOs, &vec![]), command("system_profiler SPDisplaysDataType"));
}

#[test]
fn check_nvidia_gpu_reads_the_listing() {
    assert_eq!(
        check_nvidia_gpu(Platform::Linux, &vec![ok("a\nNVIDIA card\n")]),
        found("NVIDIA card")
    );
    assert_eq!(check_nvidia_gpu(Platform::Linux, &vec![ok("a\nb\n")]), missing("No NVIDIA GPUs found"));
}

#[test]
fn check_nvidia_gpu_falls_back_on_linux_only() {
    assert_eq!(check_nvidia_gpu(Platform::Linux, &vec![fail("no lspci")]), command("nvidia-smi -L"));
    assert_eq!(
        check_nvidia_gpu(Platform::Linux, &vec![fail("no lspci"), ok("GPU 0: Tesla T4 (UUID: GPU-1)\n")]),
        found("GPU 0: Tesla T4 (UUID: GPU-1)")
    );
    assert_eq!(
        check_nvidia_gpu(Platform::Linux, &vec![fail("no lspci"), fail("no smi")]),
        missing("No NVIDIA GPUs found or lspci/nvidia-smi not available")
    );
    assert_eq!(
        check_nvidia_gpu(Platform::Linux, &vec![fail("no lspci"), ok(" \n")]),
        missing("No NVIDIA GPUs found")
    );
    assert_eq!(check_nvidia_gpu(Platform::Windows, &vec![fail("no wmic")]), missing("no wmic"));
    assert_eq!(check_nvidia_gpu(Platform::MacOs, &vec![fail("denied")]), missing("denied"));
}

#[test]
fn driver_version_is_a_normalized_token() {
    assert_eq!(
        get_nvidia_driver_version(&vec![]),
        command("nvidia-smi --query-gpu=driver_version --format=csv,noheader")
    );
    assert_eq!(get_nvidia_driver_version(&vec![ok("535.86.05\n")]), found("535.86.05"));
    assert_eq!(get_nvidia_driver_version(&vec![ok("  535.86.05 \r\n")]), found("535.86.05"));
}

#[test]
fn driver_is_not_detected_without_an_answer() {
    assert_eq!(get_nvidia_driver_version(&vec![ok("")]), missing("NVIDIA driver not found"));
    assert_eq!(get_nvidia_driver_version(&vec![ok(" \n")]), missing("NVIDIA driver not found"));
    assert_eq!(get_nvidia_driver_version(&vec![fail("gone")]), missing("NVIDIA driver not found"));
}

#[test]
fn run_benchmark_is_one_command() {
    assert_eq!(run_benchmark(&vec![]), command("python benchmark.py"));
    assert_eq!(run_benchmark(&vec![ok("42 GFLOPS\n")]), found("42 GFLOPS\n"));
    assert_eq!(run_benchmark(&vec![fail("no python")]), missing("no python"));
}

#[test]
fn csv_fields_are_trimmed() {
    let fields: Vec<String> = split_csv(&chars(" a , b,,c ")).iter().map(|f| f.iter().collect()).collect();
    assert_eq!(fields, vec!["a", "b", "", "c"]);
}

#[test]
fn detail_report_lists_each_device() {
    let raw = "NVIDIA GeForce RTX 3090, 24576, 8.6\nTesla T4, 15360, 7.5\n";
    assert_eq!(
        write_detail_report(raw),
        "   GPU 0: NVIDIA GeForce RTX 3090\n   Memory: 24576 MB\n   Compute Capability: 8.6\n\n   GPU 1: Tesla T4\n   Memory: 15360 MB\n   Compute Capability: 7.5\n"
    );
}

#[test]
fn detail_report_skips_short_lines_but_counts_them() {
    let raw = "garbage\nTesla T4, 15360, 7.5\nmore garbage, x\n";
    assert_eq!(
        write_detail_report(raw),
        "   GPU 1: Tesla T4\n   Memory: 15360 MB\n   Compute Capability: 7.5\n\n"
    );
    assert_eq!(write_detail_report(""), "");
}

#[test]
fn detailed_gpu_info_falls_back_on_the_plain_listing() {
    assert_eq!(
        get_detailed_gpu_info(Platform::Linux, &vec![]),
        command("nvidia-smi --query-gpu=name,memory.total,compute_cap --format=csv,noheader,nounits")
    );
    assert_eq!(
        get_detailed_gpu_info(Platform::Linux, &vec![ok("Tesla T4, 15360, 7.5\n")]),
        found("   GPU 0: Tesla T4\n   Memory: 15360 MB\n   Compute Capability: 7.5\n")
    );
    assert_eq!(get_detailed_gpu_info(Platform::Linux, &vec![fail("x")]), command("lspci"));
    assert_eq!(
        get_detailed_gpu_info(Platform::Linux, &vec![fail("x"), ok("NVIDIA card \n")]),
        found("   NVIDIA card\n   ⚠️  Use nvidia-smi for detailed specs")
    );
    assert_eq!(
        get_detailed_gpu_info(Platform::Linux, &vec![fail("x"), ok("none\n")]),
        missing("No NVIDIA GPUs found")
    );
    assert_eq!(
        get_detailed_gpu_info(Platform::Linux, &vec![fail("x"), fail("y")]),
        command("nvidia-smi -L")
    );
    assert_eq!(
        get_detailed_gpu_info(Platform::Windows, &vec![fail("x"), fail("y")]),
        missing("y")
    );
}

#[test]
fn status_report_lists_each_device_and_topology() {
    let status = "0, Tesla T4, 15360, 1024, 14336, 17, 5, 41, 27.5, 70.0\nshort, line\n";
    let topology = ok("\tGPU0\tCPU Affinity\n\nGPU0\t X \t0-7\n");
    assert_eq!(
        write_status_report(status, &topology),
        "   📊 Multi-GPU Status:\n\n   🎮 GPU 0: Tesla T4\n      Memory: 1024MB used / 15360MB total (14336MB free)\n      Utilization: 17% GPU, 5% Memory\n      Temperature: 41°C\n      Power: 27.5W / 70.0W\n\n   🔗 GPU Topology:\n      \tGPU0\tCPU Affinity\n      GPU0\t X \t0-7\n"
    );
    assert_eq!(write_status_report("", &fail("x")), "   📊 Multi-GPU Status:\n\n");
}

#[test]
fn status_report_shows_at_most_ten_topology_lines() {
    let many: String = (0..15).map(|i| format!("line {}\n", i)).collect();
    let report = write_status_report("", &ok(&many));
    assert!(report.ends_with("      line 9\n"));
    assert!(!report.contains("line 10"));
}

#[test]
fn multiple_gpus_asks_for_status_then_topology() {
    let status = ok("0, Tesla T4, 15360, 1024, 14336, 17, 5, 41, 27.5, 70.0\n");
    assert!(matches!(check_multiple_gpus(Platform::Linux, &vec![]), Step::Probe(Probe::Command { ref command }) if command.starts_with("nvidia-smi --query-gpu=index,name")));
    assert_eq!(check_multiple_gpus(Platform::Linux, &vec![status]), command("nvidia-smi topo -m"));
    let status = ok("0, Tesla T4, 15360, 1024, 14336, 17, 5, 41, 27.5, 70.0\n");
    assert_eq!(
        check_multiple_gpus(Platform::Linux, &vec![status, fail("no topo")]),
        found("   📊 Multi-GPU Status:\n\n   🎮 GPU 0: Tesla T4\n      Memory: 1024MB used / 15360MB total (14336MB free)\n      Utilization: 17% GPU, 5% Memory\n      Temperature: 41°C\n      Power: 27.5W / 70.0W\n\n")
    );
}

#[test]
fn multiple_gpus_falls_back_on_the_plain_listing() {
    assert_eq!(check_multiple_gpus(Platform::Linux, &vec![fail("x")]), command("lspci"));
    assert_eq!(
        check_multiple_gpus(Platform::Linux, &vec![fail("x"), ok(" NVIDIA card\n")]),
        found("   ✅ Found NVIDIA GPU(s):\n      NVIDIA card\n      ⚠️  Install nvidia-smi for detailed multi-GPU analysis\n")
    );
    assert_eq!(
        check_multiple_gpus(Platform::MacOs, &vec![fail("x"), ok("Apple\n")]),
        missing("No NVIDIA GPUs found (Note: Modern macOS doesn't support NVIDIA GPUs)")
    );
}
