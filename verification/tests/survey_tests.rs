use cuda_doctor::probe::{Platform, Probe, ProbeResult};
use cuda_doctor::snapshot::{Detections, GpuInfo};
use cuda_doctor::survey::{survey_step, Capability, Survey, SurveyStep};

fn answer(capability: Capability, probe: &Probe) -> ProbeResult {
    let text = match (capability, probe) {
        (Capability::Python, Probe::Command { command }) if command == "python3 --version" => "Python 3.10.12\n",
        (Capability::Driver, _) => "535.86.05\n",
        (Capability::Toolkit, Probe::Command { command }) if command == "/usr/local/cuda/bin/nvcc --version" => {
            "Cuda compilation tools, release 12.2, V12.2.140\n"
        }
        (Capability::Devices, _) => "Tesla T4, 15360\n",
        (Capability::PyTorch, Probe::Command { command }) if command == "pip3 show torch" => {
            "Name: torch\nVersion: 2.1.0\n"
        }
        _ => return ProbeResult::Failure("not available".to_string()),
    };
    ProbeResult::Success(text.to_string())
}

#[test]
fn survey_starts_with_the_interpreter() {
    assert_eq!(
        survey_step(Platform::Linux, &Survey::new()),
        SurveyStep::Probe(Capability::Python, Probe::Command { command: "python --version".to_string() })
    );
}

#[test]
fn survey_visits_every_capability_in_order_and_ends() {
    let mut survey = Survey::new();
    let mut visited: Vec<Capability> = Vec::new();
    let mut probes = 0;
    let detections = loop {
        match survey_step(Platform::Linux, &survey) {
            SurveyStep::Probe(capability, probe) => {
                if visited.last() != Some(&capability) {
                    visited.push(capability);
                }
                survey.record(capability, answer(capability, &probe));
                probes += 1;
                assert!(probes < 100);
            }
            SurveyStep::Done(detections) => break detections,
        }
    };
    assert_eq!(
        visited,
        vec![
            Capability::Python,
            Capability::Driver,
            Capability::Toolkit,
            Capability::Cudnn,
            Capability::Devices,
            Capability::TensorFlow,
            Capability::PyTorch,
        ]
    );
    assert_eq!(probes, 2 + 1 + 2 + 9 + 1 + 5 + 4);
    assert_eq!(
        detections,
        Detections {
            python: Ok("Python 3.10.12".to_string()),
            driver: Ok("535.86.05".to_string()),
            toolkit: Ok("12.2".to_string()),
            cudnn: Err("cuDNN version not found".to_string()),
            gpus: vec![GpuInfo { name: "Tesla T4".to_string(), memory_mib: Some(15360), compute_capability: None }],
            tensorflow: Err("TensorFlow not found or not installed".to_string()),
            pytorch: Ok("2.1.0".to_string()),
        }
    );
}

#[test]
fn survey_of_a_machine_without_anything_ends_without_detections() {
    let mut survey = Survey::new();
    let mut probes = 0;
    let detections = loop {
        match survey_step(Platform::MacOs, &survey) {
            SurveyStep::Probe(capability, _) => {
                survey.record(capability, ProbeResult::Failure("no".to_string()));
                probes += 1;
                assert!(probes < 100);
            }
            SurveyStep::Done(detections) => break detections,
        }
    };
    assert_eq!(probes, 2 + 1 + 7 + 4 + 1 + 5 + 6);
    assert_eq!(detections.python, Err("Python not found".to_string()));
    assert_eq!(detections.driver, Err("NVIDIA driver not found".to_string()));
    assert_eq!(detections.toolkit, Err("CUDA Toolkit not found".to_string()));
    assert_eq!(detections.cudnn, Err("cuDNN version not found".to_string()));
    assert!(detections.gpus.is_empty());
    assert_eq!(detections.tensorflow, Err("TensorFlow not found or not installed".to_string()));
    assert_eq!(detections.pytorch, Err("PyTorch not found or not installed".to_string()));
}

#[test]
fn record_touches_one_history_only() {
    let mut survey = Survey::new();
    survey.record(Capability::Cudnn, ProbeResult::Success("x".to_string()));
    assert_eq!(survey.cudnn, vec![ProbeResult::Success("x".to_string())]);
    assert!(survey.python.is_empty() && survey.driver.is_empty() && survey.toolkit.is_empty());
    assert!(survey.devices.is_empty() && survey.tensorflow.is_empty() && survey.pytorch.is_empty());
}
