//! The survey: every detection carried out once, one after the other.
//!
//! The survey keeps one history for each capability. It asks for the probes
//! of the first capability whose detection is not over, and when all are
//! over it hands out how each of them ended. A detection that found nothing
//! is an ordinary end: the survey itself cannot fail.

use crate::detect::{
    cuda_toolkit_plan, cudnn_plan, get_cuda_toolkit_version, get_cudnn_version,
    get_python_version, get_pytorch_version, get_tensorflow_version, python_plan, pytorch_plan,
    tensorflow_plan, CUDNN_MISSING, PYTHON_MISSING, PYTORCH_MISSING, TENSORFLOW_MISSING,
    TOOLKIT_MISSING,
};
use crate::gpu::{driver_plan, get_nvidia_driver_version, DRIVER_MISSING};
use crate::probe::{
    chain_step, lemma_chain_ends, lemma_chain_value_is_token, outcomes, single_command, single_command_step, Platform, Probe,
    ProbeOutcome, ProbeResult, ProbeView, Step, StepView,
};
use crate::snapshot::{get_gpu_list, gpu_list, Detections, DetectionsView, GPU_LIST_QUERY};
use crate::text::is_token;
use vstd::prelude::*;

verus! {

/// What a survey looks into.
#[derive(Clone, Copy, Debug, PartialEq, Eq, Structural)]
pub enum Capability {
    Python,
    Driver,
    Toolkit,
    Cudnn,
    Devices,
    TensorFlow,
    PyTorch,
}

/// The histories of a survey, one for each capability.
#[derive(Debug, PartialEq, Eq)]
pub struct Survey {
    pub python: Vec<ProbeResult>,
    pub driver: Vec<ProbeResult>,
    pub toolkit: Vec<ProbeResult>,
    pub cudnn: Vec<ProbeResult>,
    pub devices: Vec<ProbeResult>,
    pub tensorflow: Vec<ProbeResult>,
    pub pytorch: Vec<ProbeResult>,
}

/// The mathematical value of a `Survey`.
pub struct SurveyView {
    pub python: Seq<ProbeOutcome>,
    pub driver: Seq<ProbeOutcome>,
    pub toolkit: Seq<ProbeOutcome>,
    pub cudnn: Seq<ProbeOutcome>,
    pub devices: Seq<ProbeOutcome>,
    pub tensorflow: Seq<ProbeOutcome>,
    pub pytorch: Seq<ProbeOutcome>,
}

impl View for Survey {
    type V = SurveyView;

    open spec fn view(&self) -> SurveyView {
        SurveyView {
            python: outcomes(self.python@),
            driver: outcomes(self.driver@),
            toolkit: outcomes(self.toolkit@),
            cudnn: outcomes(self.cudnn@),
            devices: outcomes(self.devices@),
            tensorflow: outcomes(self.tensorflow@),
            pytorch: outcomes(self.pytorch@),
        }
    }
}

/// What a survey asks for or concludes.
#[derive(Debug, PartialEq, Eq)]
pub enum SurveyStep {
    /// This probe is to be carried out next, and its result recorded for
    /// the capability.
    Probe(Capability, Probe),
    /// The survey is over: how each detection ended.
    Done(Detections),
}

/// The mathematical value of a `SurveyStep`.
pub enum SurveyStepView {
    Probe(Capability, ProbeView),
    Done(DetectionsView),
}

impl View for SurveyStep {
    type V = SurveyStepView;

    open spec fn view(&self) -> SurveyStepView {
        match *self {
            SurveyStep::Probe(capability, probe) => SurveyStepView::Probe(capability, probe@),
            SurveyStep::Done(detections) => SurveyStepView::Done(detections@),
        }
    }
}

/// The history that a survey keeps for a capability.
pub open spec fn history_of(survey: SurveyView, capability: Capability) -> Seq<ProbeOutcome> {
    match capability {
        Capability::Python => survey.python,
        Capability::Driver => survey.driver,
        Capability::Toolkit => survey.toolkit,
        Capability::Cudnn => survey.cudnn,
        Capability::Devices => survey.devices,
        Capability::TensorFlow => survey.tensorflow,
        Capability::PyTorch => survey.pytorch,
    }
}

/// The survey after `outcome` was recorded for `capability`: the history of
/// that capability is longer by the outcome, and the others are as before.
pub open spec fn recorded(
    survey: SurveyView,
    capability: Capability,
    outcome: ProbeOutcome,
) -> SurveyView {
    match capability {
        Capability::Python => SurveyView { python: survey.python.push(outcome), ..survey },
        Capability::Driver => SurveyView { driver: survey.driver.push(outcome), ..survey },
        Capability::Toolkit => SurveyView { toolkit: survey.toolkit.push(outcome), ..survey },
        Capability::Cudnn => SurveyView { cudnn: survey.cudnn.push(outcome), ..survey },
        Capability::Devices => SurveyView { devices: survey.devices.push(outcome), ..survey },
        Capability::TensorFlow => SurveyView {
            tensorflow: survey.tensorflow.push(outcome),
            ..survey
        },
        Capability::PyTorch => SurveyView { pytorch: survey.pytorch.push(outcome), ..survey },
    }
}

/// The step of the detection of one capability, given the survey's history
/// for it. The devices are listed by one command.
pub open spec fn capability_step(
    platform: Platform,
    capability: Capability,
    survey: SurveyView,
) -> StepView {
    match capability {
        Capability::Python => chain_step(python_plan(), survey.python, PYTHON_MISSING@),
        Capability::Driver => chain_step(driver_plan(), survey.driver, DRIVER_MISSING@),
        Capability::Toolkit => chain_step(
            cuda_toolkit_plan(platform),
            survey.toolkit,
            TOOLKIT_MISSING@,
        ),
        Capability::Cudnn => chain_step(cudnn_plan(platform), survey.cudnn, CUDNN_MISSING@),
        Capability::Devices => single_command_step(GPU_LIST_QUERY@, survey.devices),
        Capability::TensorFlow => chain_step(
            tensorflow_plan(),
            survey.tensorflow,
            TENSORFLOW_MISSING@,
        ),
        Capability::PyTorch => chain_step(pytorch_plan(), survey.pytorch, PYTORCH_MISSING@),
    }
}

/// The capabilities in the order in which a survey looks into them.
pub open spec fn survey_order() -> Seq<Capability> {
    seq![
        Capability::Python,
        Capability::Driver,
        Capability::Toolkit,
        Capability::Cudnn,
        Capability::Devices,
        Capability::TensorFlow,
        Capability::PyTorch,
    ]
}

/// The first capability, from position `from` of the order on, whose
/// detection still asks for a probe.
pub open spec fn pending(platform: Platform, survey: SurveyView, from: int) -> Option<Capability>
    decreases survey_order().len() - from,
{
    if from < 0 || from >= survey_order().len() {
        None
    } else if capability_step(platform, survey_order()[from], survey) is Probe {
        Some(survey_order()[from])
    } else {
        pending(platform, survey, from + 1)
    }
}

/// How the detection of a capability ended, where it is over.
pub open spec fn ending(platform: Platform, capability: Capability, survey: SurveyView) -> Result<
    Seq<char>,
    Seq<char>,
> {
    capability_step(platform, capability, survey)->Done_0
}

/// How each detection of a finished survey ended.
pub open spec fn detections_of(platform: Platform, survey: SurveyView) -> DetectionsView {
    DetectionsView {
        python: ending(platform, Capability::Python, survey),
        driver: ending(platform, Capability::Driver, survey),
        toolkit: ending(platform, Capability::Toolkit, survey),
        cudnn: ending(platform, Capability::Cudnn, survey),
        gpus: if survey.devices.len() > 0 {
            gpu_list(survey.devices[0])
        } else {
            Seq::empty()
        },
        tensorflow: ending(platform, Capability::TensorFlow, survey),
        pytorch: ending(platform, Capability::PyTorch, survey),
    }
}

/// What a survey asks for or concludes: the probe that the first capability
/// with an unfinished detection asks for, or, when every detection is over,
/// how each of them ended.
pub open spec fn survey_step_of(platform: Platform, survey: SurveyView) -> SurveyStepView {
    match pending(platform, survey, 0) {
        Some(capability) => SurveyStepView::Probe(
            capability,
            capability_step(platform, capability, survey)->Probe_0,
        ),
        None => SurveyStepView::Done(detections_of(platform, survey)),
    }
}

impl Survey {
    /// A survey in which nothing has been probed yet.
    pub fn new() -> (out: Survey)
        ensures
            forall|capability: Capability| (#[trigger] history_of(out@, capability)).len() == 0,
    {
        Survey {
            python: Vec::new(),
            driver: Vec::new(),
            toolkit: Vec::new(),
            cudnn: Vec::new(),
            devices: Vec::new(),
            tensorflow: Vec::new(),
            pytorch: Vec::new(),
        }
    }

    /// Records what a probe gave for a capability: see `recorded`.
    pub fn record(&mut self, capability: Capability, result: ProbeResult)
        ensures
            final(self)@ == recorded(old(self)@, capability, result@),
    {
        match capability {
            Capability::Python => {
                assert(outcomes(self.python@.push(result)) =~= outcomes(self.python@).push(result@));
                self.python.push(result);
            },
            Capability::Driver => {
                assert(outcomes(self.driver@.push(result)) =~= outcomes(self.driver@).push(result@));
                self.driver.push(result);
            },
            Capability::Toolkit => {
                assert(outcomes(self.toolkit@.push(result)) =~= outcomes(self.toolkit@).push(
                    result@,
                ));
                self.toolkit.push(result);
            },
            Capability::Cudnn => {
                assert(outcomes(self.cudnn@.push(result)) =~= outcomes(self.cudnn@).push(result@));
                self.cudnn.push(result);
            },
            Capability::Devices => {
                assert(outcomes(self.devices@.push(result)) =~= outcomes(self.devices@).push(
                    result@,
                ));
                self.devices.push(result);
            },
            Capability::TensorFlow => {
                assert(outcomes(self.tensorflow@.push(result)) =~= outcomes(self.tensorflow@).push(
                    result@,
                ));
                self.tensorflow.push(result);
            },
            Capability::PyTorch => {
                assert(outcomes(self.pytorch@.push(result)) =~= outcomes(self.pytorch@).push(
                    result@,
                ));
                self.pytorch.push(result);
            },
        }
    }
}

/// The step of listing the devices.
fn devices_step(history: &Vec<ProbeResult>) -> (out: Step)
    ensures
        out@ == single_command_step(GPU_LIST_QUERY@, outcomes(history@)),
{
    single_command(GPU_LIST_QUERY, history)
}

/// The step of a survey: see `survey_step_of`.
pub fn survey_step(platform: Platform, survey: &Survey) -> (out: SurveyStep)
    ensures
        out@ == survey_step_of(platform, survey@),
{
    reveal_with_fuel(pending, 8);
    let python = match get_python_version(&survey.python) {
        Step::Probe(probe) => {
            return SurveyStep::Probe(Capability::Python, probe);
        },
        Step::Done(ended) => ended,
    };
    let driver = match get_nvidia_driver_version(&survey.driver) {
        Step::Probe(probe) => {
            return SurveyStep::Probe(Capability::Driver, probe);
        },
        Step::Done(ended) => ended,
    };
    let toolkit = match get_cuda_toolkit_version(platform, &survey.toolkit) {
        Step::Probe(probe) => {
            return SurveyStep::Probe(Capability::Toolkit, probe);
        },
        Step::Done(ended) => ended,
    };
    let cudnn = match get_cudnn_version(platform, &survey.cudnn) {
        Step::Probe(probe) => {
            return SurveyStep::Probe(Capability::Cudnn, probe);
        },
        Step::Done(ended) => ended,
    };
    match devices_step(&survey.devices) {
        Step::Probe(probe) => {
            return SurveyStep::Probe(Capability::Devices, probe);
        },
        Step::Done(_) => {},
    }
    let tensorflow = match get_tensorflow_version(&survey.tensorflow) {
        Step::Probe(probe) => {
            return SurveyStep::Probe(Capability::TensorFlow, probe);
        },
        Step::Done(ended) => ended,
    };
    let pytorch = match get_pytorch_version(&survey.pytorch) {
        Step::Probe(probe) => {
            return SurveyStep::Probe(Capability::PyTorch, probe);
        },
        Step::Done(ended) => ended,
    };
    assert(survey.devices@.len() > 0);
    assert(outcomes(survey.devices@)[0] == survey.devices@[0]@);
    let gpus = get_gpu_list(&survey.devices[0]);
    SurveyStep::Done(Detections { python, driver, toolkit, cudnn, gpus, tensorflow, pytorch })
}

/// The number of probes after which the detection of a capability is over
/// at the latest.
pub open spec fn probe_budget(platform: Platform, capability: Capability) -> nat {
    match capability {
        Capability::Python => python_plan().len(),
        Capability::Driver => driver_plan().len(),
        Capability::Toolkit => cuda_toolkit_plan(platform).len(),
        Capability::Cudnn => cudnn_plan(platform).len(),
        Capability::Devices => 1,
        Capability::TensorFlow => tensorflow_plan().len(),
        Capability::PyTorch => pytorch_plan().len(),
    }
}

/// The detection of a capability is over once its history holds as many
/// results as its budget allows, whatever the results are.
pub proof fn lemma_capability_ends(platform: Platform, capability: Capability, survey: SurveyView)
    requires
        history_of(survey, capability).len() >= probe_budget(platform, capability),
    ensures
        capability_step(platform, capability, survey) is Done,
{
    match capability {
        Capability::Python => lemma_chain_ends(python_plan(), survey.python, PYTHON_MISSING@),
        Capability::Driver => lemma_chain_ends(driver_plan(), survey.driver, DRIVER_MISSING@),
        Capability::Toolkit => lemma_chain_ends(
            cuda_toolkit_plan(platform),
            survey.toolkit,
            TOOLKIT_MISSING@,
        ),
        Capability::Cudnn => lemma_chain_ends(cudnn_plan(platform), survey.cudnn, CUDNN_MISSING@),
        Capability::Devices => {},
        Capability::TensorFlow => lemma_chain_ends(
            tensorflow_plan(),
            survey.tensorflow,
            TENSORFLOW_MISSING@,
        ),
        Capability::PyTorch => lemma_chain_ends(pytorch_plan(), survey.pytorch, PYTORCH_MISSING@),
    }
}

/// A survey cannot fail and cannot go on for ever: once every history holds
/// as many results as its capability's budget allows, the survey is over,
/// whatever the results are, and every capability has its ending.
pub proof fn lemma_survey_ends(platform: Platform, survey: SurveyView)
    requires
        forall|capability: Capability|
            (#[trigger] history_of(survey, capability)).len() >= probe_budget(
                platform,
                capability,
            ),
    ensures
        survey_step_of(platform, survey) == SurveyStepView::Done(detections_of(platform, survey)),
{
    reveal_with_fuel(pending, 8);
    assert(history_of(survey, Capability::Python).len() >= 0);
    assert(history_of(survey, Capability::Driver).len() >= 0);
    assert(history_of(survey, Capability::Toolkit).len() >= 0);
    assert(history_of(survey, Capability::Cudnn).len() >= 0);
    assert(history_of(survey, Capability::Devices).len() >= 0);
    assert(history_of(survey, Capability::TensorFlow).len() >= 0);
    assert(history_of(survey, Capability::PyTorch).len() >= 0);
    lemma_capability_ends(platform, Capability::Python, survey);
    lemma_capability_ends(platform, Capability::Driver, survey);
    lemma_capability_ends(platform, Capability::Toolkit, survey);
    lemma_capability_ends(platform, Capability::Cudnn, survey);
    lemma_capability_ends(platform, Capability::Devices, survey);
    lemma_capability_ends(platform, Capability::TensorFlow, survey);
    lemma_capability_ends(platform, Capability::PyTorch, survey);
}

/// A probe that a survey asks for is the probe that the detection of its
/// capability asks for: a detection that is over is never probed again.
pub proof fn lemma_survey_probes_unfinished(platform: Platform, survey: SurveyView)
    ensures
        survey_step_of(platform, survey) matches SurveyStepView::Probe(capability, probe)
            ==> capability_step(platform, capability, survey) == StepView::Probe(probe),
{
    reveal_with_fuel(pending, 8);
}

/// A version that a survey reports for the interpreter, the driver, the
/// deep-learning primitives library or a framework is a complete, normalized
/// token: not empty, and with no white space around it. The toolkit is left
/// out, since its version may be what a pattern captured; the list of devices
/// is no version.
pub proof fn lemma_survey_versions_are_tokens(
    platform: Platform,
    capability: Capability,
    survey: SurveyView,
    token: Seq<char>,
)
    requires
        capability != Capability::Devices,
        capability != Capability::Toolkit,
        capability_step(platform, capability, survey) == StepView::Done(Ok(token)),
    ensures
        is_token(token),
{
    match capability {
        Capability::Python => lemma_chain_value_is_token(
            python_plan(),
            survey.python,
            PYTHON_MISSING@,
            token,
        ),
        Capability::Driver => lemma_chain_value_is_token(
            driver_plan(),
            survey.driver,
            DRIVER_MISSING@,
            token,
        ),
        Capability::Cudnn => lemma_chain_value_is_token(
            cudnn_plan(platform),
            survey.cudnn,
            CUDNN_MISSING@,
            token,
        ),
        Capability::TensorFlow => lemma_chain_value_is_token(
            tensorflow_plan(),
            survey.tensorflow,
            TENSORFLOW_MISSING@,
            token,
        ),
        Capability::PyTorch => lemma_chain_value_is_token(
            pytorch_plan(),
            survey.pytorch,
            PYTORCH_MISSING@,
            token,
        ),
        _ => {},
    }
}

} // verus!
