//! The snapshot of an environment: what was found on one machine at one
//! moment. A snapshot is built once from the facts at hand and not changed
//! afterwards.

use crate::gpu::{csv_fields, split_csv};
use crate::probe::{ProbeOutcome, ProbeResult};
use crate::text::{
    chars_of, decimal_u64, lines, parse_decimal, result_text, some_text, split_lines, text_of,
    views,
};
use vstd::prelude::*;

verus! {

pub const GPU_LIST_QUERY: &'static str =
    "nvidia-smi --query-gpu=name,memory.total --format=csv,noheader,nounits";

/// A moment in time: whole seconds since the Unix epoch, in UTC, and the
/// nanoseconds into that second.
#[derive(Clone, Copy, Debug, PartialEq, Eq, Structural)]
pub struct Timestamp {
    pub seconds: i64,
    pub nanoseconds: u32,
}

/// What is known of the machine itself.
#[derive(Debug, PartialEq, Eq)]
pub struct SystemInfo {
    pub os: String,
    pub arch: String,
    pub cpu: String,
    pub total_memory_bytes: u64,
    pub python_version: Option<String>,
}

/// The mathematical value of a `SystemInfo`.
pub struct SystemInfoView {
    pub os: Seq<char>,
    pub arch: Seq<char>,
    pub cpu: Seq<char>,
    pub total_memory_bytes: u64,
    pub python_version: Option<Seq<char>>,
}

impl View for SystemInfo {
    type V = SystemInfoView;

    open spec fn view(&self) -> SystemInfoView {
        SystemInfoView {
            os: self.os@,
            arch: self.arch@,
            cpu: self.cpu@,
            total_memory_bytes: self.total_memory_bytes,
            python_version: some_text(self.python_version),
        }
    }
}

/// One graphics device. Its memory is in mebibytes.
#[derive(Debug, PartialEq, Eq)]
pub struct GpuInfo {
    pub name: String,
    pub memory_mib: Option<u64>,
    pub compute_capability: Option<String>,
}

/// The mathematical value of a `GpuInfo`.
pub struct GpuInfoView {
    pub name: Seq<char>,
    pub memory_mib: Option<u64>,
    pub compute_capability: Option<Seq<char>>,
}

impl View for GpuInfo {
    type V = GpuInfoView;

    open spec fn view(&self) -> GpuInfoView {
        GpuInfoView {
            name: self.name@,
            memory_mib: self.memory_mib,
            compute_capability: some_text(self.compute_capability),
        }
    }
}

/// The views of a sequence of devices.
pub open spec fn gpu_views(gpus: Seq<GpuInfo>) -> Seq<GpuInfoView> {
    gpus.map_values(|gpu: GpuInfo| gpu@)
}

/// What is known of the driver, the toolkit, the deep-learning primitives
/// library and the devices.
#[derive(Debug, PartialEq, Eq)]
pub struct CudaInfo {
    pub driver_version: Option<String>,
    pub cuda_version: Option<String>,
    pub cudnn_version: Option<String>,
    pub gpus: Vec<GpuInfo>,
}

/// The mathematical value of a `CudaInfo`.
pub struct CudaInfoView {
    pub driver_version: Option<Seq<char>>,
    pub cuda_version: Option<Seq<char>>,
    pub cudnn_version: Option<Seq<char>>,
    pub gpus: Seq<GpuInfoView>,
}

impl View for CudaInfo {
    type V = CudaInfoView;

    open spec fn view(&self) -> CudaInfoView {
        CudaInfoView {
            driver_version: some_text(self.driver_version),
            cuda_version: some_text(self.cuda_version),
            cudnn_version: some_text(self.cudnn_version),
            gpus: gpu_views(self.gpus@),
        }
    }
}

/// What is known of the frameworks.
#[derive(Debug, PartialEq, Eq)]
pub struct FrameworkInfo {
    pub tensorflow: Option<String>,
    pub pytorch: Option<String>,
}

/// The mathematical value of a `FrameworkInfo`.
pub struct FrameworkInfoView {
    pub tensorflow: Option<Seq<char>>,
    pub pytorch: Option<Seq<char>>,
}

impl View for FrameworkInfo {
    type V = FrameworkInfoView;

    open spec fn view(&self) -> FrameworkInfoView {
        FrameworkInfoView {
            tensorflow: some_text(self.tensorflow),
            pytorch: some_text(self.pytorch),
        }
    }
}

/// The snapshot of one environment.
#[derive(Debug, PartialEq, Eq)]
pub struct EnvironmentConfig {
    pub system_info: SystemInfo,
    pub cuda_info: CudaInfo,
    pub frameworks: FrameworkInfo,
    pub timestamp: Timestamp,
    pub hostname: String,
}

/// The mathematical value of an `EnvironmentConfig`.
pub struct EnvironmentView {
    pub system_info: SystemInfoView,
    pub cuda_info: CudaInfoView,
    pub frameworks: FrameworkInfoView,
    pub timestamp: Timestamp,
    pub hostname: Seq<char>,
}

impl View for EnvironmentConfig {
    type V = EnvironmentView;

    open spec fn view(&self) -> EnvironmentView {
        EnvironmentView {
            system_info: self.system_info@,
            cuda_info: self.cuda_info@,
            frameworks: self.frameworks@,
            timestamp: self.timestamp,
            hostname: self.hostname@,
        }
    }
}

/// What the operating system says of the machine. A name that the system
/// does not give is absent.
#[derive(Debug, PartialEq, Eq)]
pub struct HostFacts {
    pub os_name: Option<String>,
    pub os_version: Option<String>,
    pub arch: String,
    pub cpu_brand: Option<String>,
    pub total_memory_bytes: u64,
    pub hostname: Option<String>,
}

/// The mathematical value of a `HostFacts`.
pub struct HostFactsView {
    pub os_name: Option<Seq<char>>,
    pub os_version: Option<Seq<char>>,
    pub arch: Seq<char>,
    pub cpu_brand: Option<Seq<char>>,
    pub total_memory_bytes: u64,
    pub hostname: Option<Seq<char>>,
}

impl View for HostFacts {
    type V = HostFactsView;

    open spec fn view(&self) -> HostFactsView {
        HostFactsView {
            os_name: some_text(self.os_name),
            os_version: some_text(self.os_version),
            arch: self.arch@,
            cpu_brand: some_text(self.cpu_brand),
            total_memory_bytes: self.total_memory_bytes,
            hostname: some_text(self.hostname),
        }
    }
}

/// How each detection ended.
#[derive(Debug, PartialEq, Eq)]
pub struct Detections {
    pub python: Result<String, String>,
    pub driver: Result<String, String>,
    pub toolkit: Result<String, String>,
    pub cudnn: Result<String, String>,
    pub gpus: Vec<GpuInfo>,
    pub tensorflow: Result<String, String>,
    pub pytorch: Result<String, String>,
}

/// The mathematical value of a `Detections`.
pub struct DetectionsView {
    pub python: Result<Seq<char>, Seq<char>>,
    pub driver: Result<Seq<char>, Seq<char>>,
    pub toolkit: Result<Seq<char>, Seq<char>>,
    pub cudnn: Result<Seq<char>, Seq<char>>,
    pub gpus: Seq<GpuInfoView>,
    pub tensorflow: Result<Seq<char>, Seq<char>>,
    pub pytorch: Result<Seq<char>, Seq<char>>,
}

impl View for Detections {
    type V = DetectionsView;

    open spec fn view(&self) -> DetectionsView {
        DetectionsView {
            python: result_text(self.python),
            driver: result_text(self.driver),
            toolkit: result_text(self.toolkit),
            cudnn: result_text(self.cudnn),
            gpus: gpu_views(self.gpus@),
            tensorflow: result_text(self.tensorflow),
            pytorch: result_text(self.pytorch),
        }
    }
}

/// The text of an optional name, empty where the name is absent.
pub open spec fn or_empty(name: Option<Seq<char>>) -> Seq<char> {
    match name {
        Some(text) => text,
        None => Seq::empty(),
    }
}

/// The value that a detection found, if it found one. Why it found none is
/// not kept.
pub open spec fn found(detection: Result<Seq<char>, Seq<char>>) -> Option<Seq<char>> {
    match detection {
        Ok(value) => Some(value),
        Err(_) => None,
    }
}

/// The snapshot made of the given facts. The name of the operating system is
/// its name and its version with a space between them. Each capability is
/// there with the value that its detection found, or absent.
pub open spec fn snapshot_of(
    host: HostFactsView,
    detections: DetectionsView,
    now: Timestamp,
) -> EnvironmentView {
    EnvironmentView {
        system_info: SystemInfoView {
            os: or_empty(host.os_name) + " "@ + or_empty(host.os_version),
            arch: host.arch,
            cpu: or_empty(host.cpu_brand),
            total_memory_bytes: host.total_memory_bytes,
            python_version: found(detections.python),
        },
        cuda_info: CudaInfoView {
            driver_version: found(detections.driver),
            cuda_version: found(detections.toolkit),
            cudnn_version: found(detections.cudnn),
            gpus: detections.gpus,
        },
        frameworks: FrameworkInfoView {
            tensorflow: found(detections.tensorflow),
            pytorch: found(detections.pytorch),
        },
        timestamp: now,
        hostname: or_empty(host.hostname),
    }
}

/// The devices that the first `count` lines of a device list describe. A
/// line with at least two fields describes a device: the first field is its
/// name, the second its memory in mebibytes, where it is a decimal number
/// that fits in 64 bits. The list does not give compute capabilities.
pub open spec fn listed_gpus(rows: Seq<Seq<char>>, count: nat) -> Seq<GpuInfoView>
    decreases count,
{
    if count == 0 {
        Seq::empty()
    } else {
        let before = listed_gpus(rows, (count - 1) as nat);
        let parts = csv_fields(rows[count - 1]);
        if parts.len() >= 2 {
            before.push(
                GpuInfoView {
                    name: parts[0],
                    memory_mib: decimal_u64(parts[1]),
                    compute_capability: None,
                },
            )
        } else {
            before
        }
    }
}

/// The devices that the outcome of the device list query describes: none
/// where the query failed.
pub open spec fn gpu_list(outcome: ProbeOutcome) -> Seq<GpuInfoView> {
    match outcome {
        ProbeOutcome::Success(raw) => listed_gpus(lines(raw), lines(raw).len()),
        ProbeOutcome::Failure(_) => Seq::empty(),
    }
}

/// The value that a detection found, if it found one.
pub fn found_value(detection: Result<String, String>) -> (out: Option<String>)
    ensures
        some_text(out) == found(result_text(detection)),
{
    match detection {
        Ok(value) => Some(value),
        Err(_) => None,
    }
}

/// The text of an optional name, empty where the name is absent.
pub fn text_or_empty(name: Option<String>) -> (out: String)
    ensures
        out@ == or_empty(some_text(name)),
{
    match name {
        Some(text) => text,
        None => String::new(),
    }
}

/// Reads the devices from the outcome of the device list query: see
/// `gpu_list`.
pub fn get_gpu_list(outcome: &ProbeResult) -> (out: Vec<GpuInfo>)
    ensures
        gpu_views(out@) == gpu_list(outcome@),
{
    let mut out: Vec<GpuInfo> = Vec::new();
    assert(gpu_views(out@) =~= Seq::empty());
    match outcome {
        ProbeResult::Failure(_) => out,
        ProbeResult::Success(raw) => {
            let rows = split_lines(&chars_of(raw.as_str()));
            let mut i: usize = 0;
            while i < rows.len()
                invariant
                    i <= rows.len(),
                    gpu_views(out@) == listed_gpus(views(rows@), i as nat),
                decreases rows.len() - i,
            {
                assert(views(rows@)[i as int] == rows@[i as int]@);
                let parts = split_csv(&rows[i]);
                if parts.len() >= 2 {
                    proof {
                        assert(views(parts@)[0] == parts@[0]@);
                        assert(views(parts@)[1] == parts@[1]@);
                    }
                    let gpu = GpuInfo {
                        name: text_of(&parts[0]),
                        memory_mib: parse_decimal(&parts[1]),
                        compute_capability: None,
                    };
                    assert(gpu_views(out@.push(gpu)) =~= gpu_views(out@).push(gpu@));
                    out.push(gpu);
                }
                i = i + 1;
            }
            out
        },
    }
}

/// Builds the snapshot of the environment from what the operating system
/// says, how each detection ended, and the time: see `snapshot_of`. A
/// detection that found nothing leaves its capability absent; nothing makes
/// the building fail.
pub fn collect_environment_config(host: HostFacts, detections: Detections, now: Timestamp) -> (out:
    EnvironmentConfig)
    ensures
        out@ == snapshot_of(host@, detections@, now),
{
    let mut os = text_or_empty(host.os_name);
    os.append(" ");
    os.append(text_or_empty(host.os_version).as_str());
    EnvironmentConfig {
        system_info: SystemInfo {
            os,
            arch: host.arch,
            cpu: text_or_empty(host.cpu_brand),
            total_memory_bytes: host.total_memory_bytes,
            python_version: found_value(detections.python),
        },
        cuda_info: CudaInfo {
            driver_version: found_value(detections.driver),
            cuda_version: found_value(detections.toolkit),
            cudnn_version: found_value(detections.cudnn),
            gpus: detections.gpus,
        },
        frameworks: FrameworkInfo {
            tensorflow: found_value(detections.tensorflow),
            pytorch: found_value(detections.pytorch),
        },
        timestamp: now,
        hostname: text_or_empty(host.hostname),
    }
}

} // verus!
