//! Detection of each capability: the strategies that are tried for it, in
//! order of trust, and the step that a history leads to.
//!
//! What a capability's own installation says of itself comes first. Asking
//! an interpreter that has a framework loaded ranks above asking a package
//! manager, which ranks above reading headers found on disk. Strategies that
//! make sense on one operating system only are left out of the plan on the
//! others.

use crate::parse::{conda_list_version, parse_conda_list, parse_pip_show, pip_show_version};
use crate::probe::{
    ask, ask_for, chain_step, outcomes, plan_view, run_chain, FollowUp, Package, Parser, Platform,
    ProbeOutcome, ProbeResult, Step, StepView, Strategy, StrategyView,
};
use crate::text::texts;
use vstd::prelude::*;

verus! {

pub const NVCC: &'static str = "nvcc --version";

pub const NVCC_USR_LOCAL: &'static str = "/usr/local/cuda/bin/nvcc --version";

pub const NVCC_OPT: &'static str = "/opt/cuda/bin/nvcc --version";

pub const CAT_VERSION_FILE: &'static str = "cat /usr/local/cuda/version.txt";

pub const TORCH_CUDA_PYTHON: &'static str = r#"python -c "import torch; print(torch.version.cuda)""#;

pub const TORCH_CUDA_PYTHON3: &'static str =
    r#"python3 -c "import torch; print(torch.version.cuda)""#;

pub const TENSORFLOW_CUDA_PYTHON: &'static str =
    r#"python -c "import tensorflow as tf; print(tf.sysconfig.get_build_info()['cuda_version'])""#;

pub const TENSORFLOW_CUDA_PYTHON3: &'static str =
    r#"python3 -c "import tensorflow as tf; print(tf.sysconfig.get_build_info()['cuda_version'])""#;

pub const TORCH_CUDNN_PYTHON: &'static str =
    r#"python -c "import torch; print(torch.backends.cudnn.version())""#;

pub const TORCH_CUDNN_PYTHON3: &'static str =
    r#"python3 -c "import torch; print(torch.backends.cudnn.version())""#;

pub const TENSORFLOW_CUDNN_PYTHON: &'static str =
    r#"python -c "import tensorflow as tf; print(tf.sysconfig.get_build_info()['cudnn_version'])""#;

pub const TENSORFLOW_CUDNN_PYTHON3: &'static str =
    r#"python3 -c "import tensorflow as tf; print(tf.sysconfig.get_build_info()['cudnn_version'])""#;

pub const TENSORFLOW_PYTHON: &'static str =
    r#"python -c "import tensorflow as tf; print(tf.__version__)""#;

pub const TENSORFLOW_PYTHON3: &'static str =
    r#"python3 -c "import tensorflow as tf; print(tf.__version__)""#;

pub const TORCH_PYTHON: &'static str = r#"python -c "import torch; print(torch.__version__)""#;

pub const TORCH_PYTHON3: &'static str = r#"python3 -c "import torch; print(torch.__version__)""#;

pub const PIP_TENSORFLOW: &'static str = "pip show tensorflow";

pub const PIP3_TENSORFLOW: &'static str = "pip3 show tensorflow";

pub const PIP_TORCH: &'static str = "pip show torch";

pub const PIP3_TORCH: &'static str = "pip3 show torch";

pub const CONDA_TENSORFLOW: &'static str = "conda list tensorflow";

pub const CONDA_PYTORCH: &'static str = "conda list pytorch";

pub const CONDA_TORCH: &'static str = "conda list torch";

pub const PYTHON_VERSION: &'static str = "python --version";

pub const PYTHON3_VERSION: &'static str = "python3 --version";

pub const WINDOWS_TOOLKIT_ROOT: &'static str =
    "C:\\Program Files\\NVIDIA GPU Computing Toolkit\\CUDA";

pub const WINDOWS_NVSMI_ROOT: &'static str = "C:\\Program Files\\NVIDIA Corporation\\NVSMI";

pub const WINDOWS_SYSTEM_ROOT: &'static str = "C:\\Windows\\System32";

pub const USR_LOCAL_CUDA: &'static str = "/usr/local/cuda";

pub const OPT_CUDA: &'static str = "/opt/cuda";

pub const USR_INCLUDE: &'static str = "/usr/include";

pub const USR_LOCAL_INCLUDE: &'static str = "/usr/local/include";

pub const PATH_VARIABLE: &'static str = "PATH";

pub const LIBRARY_PATH_VARIABLE: &'static str = "LD_LIBRARY_PATH";

pub const COMPILER: &'static str = "nvcc";

pub const COMPILER_EXE: &'static str = "nvcc.exe";

pub const LIBRARY_HEADER: &'static str = "cudnn_version.h";

pub const TOOLKIT_MISSING: &'static str = "CUDA Toolkit not found";

pub const CUDNN_MISSING: &'static str = "cuDNN version not found";

pub const TENSORFLOW_MISSING: &'static str = "TensorFlow not found or not installed";

pub const PYTORCH_MISSING: &'static str = "PyTorch not found or not installed";

pub const PYTHON_MISSING: &'static str = "Python not found";

/// The file names under which the toolkit's compiler is installed.
pub open spec fn compiler_names() -> Seq<Seq<char>> {
    seq![COMPILER@, COMPILER_EXE@]
}

/// The strategies for the toolkit version. The toolkit's own word comes
/// first: its compiler on the search path and at its usual places, each read
/// by its release line or else its build line, and on Linux its version
/// file; then the frameworks are asked which toolkit they were built for;
/// last the compiler is looked for in the directories of the search path and
/// under the usual installation roots, and what is found is run and read by
/// its release line.
pub open spec fn cuda_toolkit_plan(platform: Platform) -> Seq<StrategyView> {
    let compilers = seq![
        StrategyView::command(NVCC@, Parser::BannerVersion),
        StrategyView::command(NVCC_USR_LOCAL@, Parser::BannerVersion),
        StrategyView::command(NVCC_OPT@, Parser::BannerVersion),
    ];
    let version_file = if platform == Platform::Linux {
        seq![StrategyView::command(CAT_VERSION_FILE@, Parser::VersionFile)]
    } else {
        Seq::empty()
    };
    let frameworks = seq![
        StrategyView::command(TORCH_CUDA_PYTHON@, Parser::PrintedValue),
        StrategyView::command(TORCH_CUDA_PYTHON3@, Parser::PrintedValue),
        StrategyView::command(TENSORFLOW_CUDA_PYTHON@, Parser::PrintedValue),
        StrategyView::command(TENSORFLOW_CUDA_PYTHON3@, Parser::PrintedValue),
    ];
    let searches = match platform {
        Platform::Windows => seq![
            StrategyView::search(
                PATH_VARIABLE@,
                COMPILER_EXE@,
                FollowUp::QueryVersionQuoted,
                Parser::ReleaseVersion,
            ),
            StrategyView::scan(
                WINDOWS_TOOLKIT_ROOT@,
                compiler_names(),
                FollowUp::QueryVersionQuoted,
                Parser::ReleaseVersion,
            ),
        ],
        Platform::Linux => seq![
            StrategyView::search(
                PATH_VARIABLE@,
                COMPILER@,
                FollowUp::QueryVersion,
                Parser::ReleaseVersion,
            ),
            StrategyView::scan(
                USR_LOCAL_CUDA@,
                compiler_names(),
                FollowUp::QueryVersionQuoted,
                Parser::ReleaseVersion,
            ),
            StrategyView::scan(
                OPT_CUDA@,
                compiler_names(),
                FollowUp::QueryVersionQuoted,
                Parser::ReleaseVersion,
            ),
        ],
        Platform::MacOs => Seq::empty(),
    };
    compilers + version_file + frameworks + searches
}

/// The strategies that read the library's header where it is found.
pub open spec fn cudnn_header_plan(platform: Platform) -> Seq<StrategyView> {
    match platform {
        Platform::Windows => seq![
            StrategyView::search(
                PATH_VARIABLE@,
                LIBRARY_HEADER@,
                FollowUp::ReadContents,
                Parser::HeaderVersion,
            ),
            StrategyView::scan(
                WINDOWS_TOOLKIT_ROOT@,
                seq![LIBRARY_HEADER@],
                FollowUp::ReadContents,
                Parser::HeaderVersion,
            ),
            StrategyView::scan(
                WINDOWS_NVSMI_ROOT@,
                seq![LIBRARY_HEADER@],
                FollowUp::ReadContents,
                Parser::HeaderVersion,
            ),
            StrategyView::scan(
                WINDOWS_SYSTEM_ROOT@,
                seq![LIBRARY_HEADER@],
                FollowUp::ReadContents,
                Parser::HeaderVersion,
            ),
        ],
        Platform::Linux => seq![
            StrategyView::search(
                LIBRARY_PATH_VARIABLE@,
                LIBRARY_HEADER@,
                FollowUp::ReadContents,
                Parser::HeaderVersion,
            ),
            StrategyView::scan(
                USR_LOCAL_CUDA@,
                seq![LIBRARY_HEADER@],
                FollowUp::ReadContents,
                Parser::HeaderVersion,
            ),
            StrategyView::scan(
                OPT_CUDA@,
                seq![LIBRARY_HEADER@],
                FollowUp::ReadContents,
                Parser::HeaderVersion,
            ),
            StrategyView::scan(
                USR_INCLUDE@,
                seq![LIBRARY_HEADER@],
                FollowUp::ReadContents,
                Parser::HeaderVersion,
            ),
            StrategyView::scan(
                USR_LOCAL_INCLUDE@,
                seq![LIBRARY_HEADER@],
                FollowUp::ReadContents,
                Parser::HeaderVersion,
            ),
        ],
        Platform::MacOs => Seq::empty(),
    }
}

/// The strategies for the version of the deep-learning primitives library:
/// the frameworks are asked first which version they were built for; after
/// that its header is read, looked for in the directories of the platform's
/// search variable and then under the usual installation roots.
pub open spec fn cudnn_plan(platform: Platform) -> Seq<StrategyView> {
    seq![
        StrategyView::command(TORCH_CUDNN_PYTHON@, Parser::PrintedValue),
        StrategyView::command(TORCH_CUDNN_PYTHON3@, Parser::PrintedValue),
        StrategyView::command(TENSORFLOW_CUDNN_PYTHON@, Parser::PrintedValue),
        StrategyView::command(TENSORFLOW_CUDNN_PYTHON3@, Parser::PrintedValue),
    ] + cudnn_header_plan(platform)
}

/// The strategies for the TensorFlow version: the interpreter first, then the
/// package managers, then the environment manager.
pub open spec fn tensorflow_plan() -> Seq<StrategyView> {
    seq![
        StrategyView::command(TENSORFLOW_PYTHON@, Parser::ModuleVersion),
        StrategyView::command(TENSORFLOW_PYTHON3@, Parser::ModuleVersion),
        StrategyView::command(PIP_TENSORFLOW@, Parser::PipShow),
        StrategyView::command(PIP3_TENSORFLOW@, Parser::PipShow),
        StrategyView::command(CONDA_TENSORFLOW@, Parser::CondaList(Package::TensorFlow)),
    ]
}

/// The strategies for the PyTorch version: the interpreter first, then the
/// package managers, then the environment manager under both of the names
/// that it lists the package by.
pub open spec fn pytorch_plan() -> Seq<StrategyView> {
    seq![
        StrategyView::command(TORCH_PYTHON@, Parser::ModuleVersion),
        StrategyView::command(TORCH_PYTHON3@, Parser::ModuleVersion),
        StrategyView::command(PIP_TORCH@, Parser::PipShow),
        StrategyView::command(PIP3_TORCH@, Parser::PipShow),
        StrategyView::command(CONDA_PYTORCH@, Parser::CondaList(Package::PyTorch)),
        StrategyView::command(CONDA_TORCH@, Parser::CondaList(Package::Torch)),
    ]
}

/// The strategies for the interpreter's own version.
pub open spec fn python_plan() -> Seq<StrategyView> {
    seq![
        StrategyView::command(PYTHON_VERSION@, Parser::Trimmed),
        StrategyView::command(PYTHON3_VERSION@, Parser::Trimmed),
    ]
}

/// Appends a strategy to a plan.
fn plan_push(plan: &mut Vec<Strategy>, strategy: Strategy)
    ensures
        plan_view(final(plan)@) == plan_view(old(plan)@).push(strategy@),
{
    plan.push(strategy);
    assert(plan_view(plan@) =~= plan_view(old(plan)@).push(strategy@));
}

/// The file names under which the toolkit's compiler is installed.
fn compiler_file_names() -> (out: Vec<String>)
    ensures
        texts(out@) == compiler_names(),
{
    let mut out: Vec<String> = Vec::new();
    out.push(COMPILER.to_string());
    out.push(COMPILER_EXE.to_string());
    assert(texts(out@) =~= compiler_names());
    out
}

/// The file name of the library's header, as a list of one.
fn header_file_names() -> (out: Vec<String>)
    ensures
        texts(out@) == seq![LIBRARY_HEADER@],
{
    let mut out: Vec<String> = Vec::new();
    out.push(LIBRARY_HEADER.to_string());
    assert(texts(out@) =~= seq![LIBRARY_HEADER@]);
    out
}

/// Builds the plan for the toolkit version on `platform`.
pub fn cuda_toolkit_strategies(platform: Platform) -> (plan: Vec<Strategy>)
    ensures
        plan_view(plan@) == cuda_toolkit_plan(platform),
{
    let mut plan: Vec<Strategy> = Vec::new();
    assert(plan_view(plan@) =~= Seq::empty());
    plan_push(&mut plan, Strategy::command(NVCC, Parser::BannerVersion));
    plan_push(&mut plan, Strategy::command(NVCC_USR_LOCAL, Parser::BannerVersion));
    plan_push(&mut plan, Strategy::command(NVCC_OPT, Parser::BannerVersion));
    match platform {
        Platform::Linux => {
            plan_push(&mut plan, Strategy::command(CAT_VERSION_FILE, Parser::VersionFile));
        },
        _ => {},
    }
    plan_push(&mut plan, Strategy::command(TORCH_CUDA_PYTHON, Parser::PrintedValue));
    plan_push(&mut plan, Strategy::command(TORCH_CUDA_PYTHON3, Parser::PrintedValue));
    plan_push(&mut plan, Strategy::command(TENSORFLOW_CUDA_PYTHON, Parser::PrintedValue));
    plan_push(&mut plan, Strategy::command(TENSORFLOW_CUDA_PYTHON3, Parser::PrintedValue));
    match platform {
        Platform::Windows => {
            plan_push(
                &mut plan,
                Strategy::search(
                    PATH_VARIABLE,
                    COMPILER_EXE,
                    FollowUp::QueryVersionQuoted,
                    Parser::ReleaseVersion,
                ),
            );
            plan_push(
                &mut plan,
                Strategy::scan(
                    WINDOWS_TOOLKIT_ROOT,
                    compiler_file_names(),
                    FollowUp::QueryVersionQuoted,
                    Parser::ReleaseVersion,
                ),
            );
        },
        Platform::Linux => {
            plan_push(
                &mut plan,
                Strategy::search(
                    PATH_VARIABLE,
                    COMPILER,
                    FollowUp::QueryVersion,
                    Parser::ReleaseVersion,
                ),
            );
            plan_push(
                &mut plan,
                Strategy::scan(
                    USR_LOCAL_CUDA,
                    compiler_file_names(),
                    FollowUp::QueryVersionQuoted,
                    Parser::ReleaseVersion,
                ),
            );
            plan_push(
                &mut plan,
                Strategy::scan(
                    OPT_CUDA,
                    compiler_file_names(),
                    FollowUp::QueryVersionQuoted,
                    Parser::ReleaseVersion,
                ),
            );
        },
        Platform::MacOs => {},
    }
    assert(plan_view(plan@) =~= cuda_toolkit_plan(platform));
    plan
}

/// Builds the plan for the version of the deep-learning primitives library
/// on `platform`.
pub fn cudnn_strategies(platform: Platform) -> (plan: Vec<Strategy>)
    ensures
        plan_view(plan@) == cudnn_plan(platform),
{
    let mut plan: Vec<Strategy> = Vec::new();
    assert(plan_view(plan@) =~= Seq::empty());
    plan_push(&mut plan, Strategy::command(TORCH_CUDNN_PYTHON, Parser::PrintedValue));
    plan_push(&mut plan, Strategy::command(TORCH_CUDNN_PYTHON3, Parser::PrintedValue));
    plan_push(&mut plan, Strategy::command(TENSORFLOW_CUDNN_PYTHON, Parser::PrintedValue));
    plan_push(&mut plan, Strategy::command(TENSORFLOW_CUDNN_PYTHON3, Parser::PrintedValue));
    match platform {
        Platform::Windows => {
            plan_push(
                &mut plan,
                Strategy::search(
                    PATH_VARIABLE,
                    LIBRARY_HEADER,
                    FollowUp::ReadContents,
                    Parser::HeaderVersion,
                ),
            );
            plan_push(
                &mut plan,
                Strategy::scan(
                    WINDOWS_TOOLKIT_ROOT,
                    header_file_names(),
                    FollowUp::ReadContents,
                    Parser::HeaderVersion,
                ),
            );
            plan_push(
                &mut plan,
                Strategy::scan(
                    WINDOWS_NVSMI_ROOT,
                    header_file_names(),
                    FollowUp::ReadContents,
                    Parser::HeaderVersion,
                ),
            );
            plan_push(
                &mut plan,
                Strategy::scan(
                    WINDOWS_SYSTEM_ROOT,
                    header_file_names(),
                    FollowUp::ReadContents,
                    Parser::HeaderVersion,
                ),
            );
        },
        Platform::Linux => {
            plan_push(
                &mut plan,
                Strategy::search(
                    LIBRARY_PATH_VARIABLE,
                    LIBRARY_HEADER,
                    FollowUp::ReadContents,
                    Parser::HeaderVersion,
                ),
            );
            plan_push(
                &mut plan,
                Strategy::scan(
                    USR_LOCAL_CUDA,
                    header_file_names(),
                    FollowUp::ReadContents,
                    Parser::HeaderVersion,
                ),
            );
            plan_push(
                &mut plan,
                Strategy::scan(
                    OPT_CUDA,
                    header_file_names(),
                    FollowUp::ReadContents,
                    Parser::HeaderVersion,
                ),
            );
            plan_push(
                &mut plan,
                Strategy::scan(
                    USR_INCLUDE,
                    header_file_names(),
                    FollowUp::ReadContents,
                    Parser::HeaderVersion,
                ),
            );
            plan_push(
                &mut plan,
                Strategy::scan(
                    USR_LOCAL_INCLUDE,
                    header_file_names(),
                    FollowUp::ReadContents,
                    Parser::HeaderVersion,
                ),
            );
        },
        Platform::MacOs => {},
    }
    assert(plan_view(plan@) =~= cudnn_plan(platform));
    plan
}

/// Builds the plan for the TensorFlow version.
pub fn tensorflow_strategies() -> (plan: Vec<Strategy>)
    ensures
        plan_view(plan@) == tensorflow_plan(),
{
    let mut plan: Vec<Strategy> = Vec::new();
    assert(plan_view(plan@) =~= Seq::empty());
    plan_push(&mut plan, Strategy::command(TENSORFLOW_PYTHON, Parser::ModuleVersion));
    plan_push(&mut plan, Strategy::command(TENSORFLOW_PYTHON3, Parser::ModuleVersion));
    plan_push(&mut plan, Strategy::command(PIP_TENSORFLOW, Parser::PipShow));
    plan_push(&mut plan, Strategy::command(PIP3_TENSORFLOW, Parser::PipShow));
    plan_push(
        &mut plan,
        Strategy::command(CONDA_TENSORFLOW, Parser::CondaList(Package::TensorFlow)),
    );
    assert(plan_view(plan@) =~= tensorflow_plan());
    plan
}

/// Builds the plan for the PyTorch version.
pub fn pytorch_strategies() -> (plan: Vec<Strategy>)
    ensures
        plan_view(plan@) == pytorch_plan(),
{
    let mut plan: Vec<Strategy> = Vec::new();
    assert(plan_view(plan@) =~= Seq::empty());
    plan_push(&mut plan, Strategy::command(TORCH_PYTHON, Parser::ModuleVersion));
    plan_push(&mut plan, Strategy::command(TORCH_PYTHON3, Parser::ModuleVersion));
    plan_push(&mut plan, Strategy::command(PIP_TORCH, Parser::PipShow));
    plan_push(&mut plan, Strategy::command(PIP3_TORCH, Parser::PipShow));
    plan_push(&mut plan, Strategy::command(CONDA_PYTORCH, Parser::CondaList(Package::PyTorch)));
    plan_push(&mut plan, Strategy::command(CONDA_TORCH, Parser::CondaList(Package::Torch)));
    assert(plan_view(plan@) =~= pytorch_plan());
    plan
}

/// Builds the plan for the interpreter's own version.
pub fn python_strategies() -> (plan: Vec<Strategy>)
    ensures
        plan_view(plan@) == python_plan(),
{
    let mut plan: Vec<Strategy> = Vec::new();
    assert(plan_view(plan@) =~= Seq::empty());
    plan_push(&mut plan, Strategy::command(PYTHON_VERSION, Parser::Trimmed));
    plan_push(&mut plan, Strategy::command(PYTHON3_VERSION, Parser::Trimmed));
    assert(plan_view(plan@) =~= python_plan());
    plan
}

/// The step in detecting the toolkit version on `platform` that `history`
/// leads to: the chain over `cuda_toolkit_plan`.
pub fn get_cuda_toolkit_version(platform: Platform, history: &Vec<ProbeResult>) -> (out: Step)
    ensures
        out@ == chain_step(cuda_toolkit_plan(platform), outcomes(history@), TOOLKIT_MISSING@),
{
    run_chain(cuda_toolkit_strategies(platform), history, TOOLKIT_MISSING)
}

/// The step in detecting the version of the deep-learning primitives library
/// on `platform` that `history` leads to: the chain over `cudnn_plan`.
pub fn get_cudnn_version(platform: Platform, history: &Vec<ProbeResult>) -> (out: Step)
    ensures
        out@ == chain_step(cudnn_plan(platform), outcomes(history@), CUDNN_MISSING@),
{
    run_chain(cudnn_strategies(platform), history, CUDNN_MISSING)
}

/// The step in detecting the TensorFlow version that `history` leads to: the
/// chain over `tensorflow_plan`.
pub fn get_tensorflow_version(history: &Vec<ProbeResult>) -> (out: Step)
    ensures
        out@ == chain_step(tensorflow_plan(), outcomes(history@), TENSORFLOW_MISSING@),
{
    run_chain(tensorflow_strategies(), history, TENSORFLOW_MISSING)
}

/// The step in detecting the PyTorch version that `history` leads to: the
/// chain over `pytorch_plan`.
pub fn get_pytorch_version(history: &Vec<ProbeResult>) -> (out: Step)
    ensures
        out@ == chain_step(pytorch_plan(), outcomes(history@), PYTORCH_MISSING@),
{
    run_chain(pytorch_strategies(), history, PYTORCH_MISSING)
}

/// The step in detecting the interpreter's version that `history` leads to:
/// the chain over `python_plan`.
pub fn get_python_version(history: &Vec<ProbeResult>) -> (out: Step)
    ensures
        out@ == chain_step(python_plan(), outcomes(history@), PYTHON_MISSING@),
{
    run_chain(python_strategies(), history, PYTHON_MISSING)
}

/// The command that asks the package manager `pip` to describe `package`.
pub open spec fn pip_show_command(pip: Seq<char>, package: Seq<char>) -> Seq<char> {
    pip + " show "@ + package
}

/// The command that asks the environment manager to list `package`.
pub open spec fn conda_list_command(package: Seq<char>) -> Seq<char> {
    "conda list "@ + package
}

/// The step in asking one package manager for the version of one package.
/// A command that fails passes its failure on; a description that holds no
/// version gives the report that the package was not found with that manager.
pub open spec fn pip_package_step(
    package: Seq<char>,
    pip: Seq<char>,
    history: Seq<ProbeOutcome>,
) -> StepView {
    if history.len() == 0 {
        ask(pip_show_command(pip, package))
    } else {
        match history[0] {
            ProbeOutcome::Failure(reason) => StepView::Done(Err(reason)),
            ProbeOutcome::Success(raw) => match pip_show_version(raw) {
                Some(version) => StepView::Done(Ok(version)),
                None => StepView::Done(Err("Package "@ + package + " not found with "@ + pip)),
            },
        }
    }
}

/// The step in asking the environment manager for the version of one
/// package. A command that fails passes its failure on; a listing that holds
/// no version gives the report that the package was not found.
pub open spec fn conda_package_step(package: Seq<char>, history: Seq<ProbeOutcome>) -> StepView {
    if history.len() == 0 {
        ask(conda_list_command(package))
    } else {
        match history[0] {
            ProbeOutcome::Failure(reason) => StepView::Done(Err(reason)),
            ProbeOutcome::Success(raw) => match conda_list_version(raw, package) {
                Some(version) => StepView::Done(Ok(version)),
                None => StepView::Done(Err("Package "@ + package + " not found with conda"@)),
            },
        }
    }
}

/// The step in asking the package manager `pip_cmd` for the version of
/// `package_name` that `history` leads to: see `pip_package_step`.
pub fn get_pip_package_version(package_name: &str, pip_cmd: &str, history: &Vec<ProbeResult>) -> (out:
    Step)
    ensures
        out@ == pip_package_step(package_name@, pip_cmd@, outcomes(history@)),
{
    if history.len() == 0 {
        let mut command = pip_cmd.to_string();
        command.append(" show ");
        command.append(package_name);
        return ask_for(command.as_str());
    }
    match &history[0] {
        ProbeResult::Failure(reason) => Step::Done(Err(reason.clone())),
        ProbeResult::Success(raw) => match parse_pip_show(raw.as_str()) {
            Some(version) => Step::Done(Ok(version)),
            None => {
                let mut reason = "Package ".to_string();
                reason.append(package_name);
                reason.append(" not found with ");
                reason.append(pip_cmd);
                Step::Done(Err(reason))
            },
        },
    }
}

/// The step in asking the environment manager for the version of
/// `package_name` that `history` leads to: see `conda_package_step`.
pub fn get_conda_package_version(package_name: &str, history: &Vec<ProbeResult>) -> (out: Step)
    ensures
        out@ == conda_package_step(package_name@, outcomes(history@)),
{
    if history.len() == 0 {
        let mut command = "conda list ".to_string();
        command.append(package_name);
        return ask_for(command.as_str());
    }
    match &history[0] {
        ProbeResult::Failure(reason) => Step::Done(Err(reason.clone())),
        ProbeResult::Success(raw) => match parse_conda_list(raw.as_str(), package_name) {
            Some(version) => Step::Done(Ok(version)),
            None => {
                let mut reason = "Package ".to_string();
                reason.append(package_name);
                reason.append(" not found with conda");
                Step::Done(Err(reason))
            },
        },
    }
}

/// The plans ask the package managers with the very commands that
/// `pip_show_command` and `conda_list_command` make.
pub proof fn lemma_plan_commands()
    ensures
        PIP_TENSORFLOW@ == pip_show_command("pip"@, "tensorflow"@),
        PIP3_TENSORFLOW@ == pip_show_command("pip3"@, "tensorflow"@),
        PIP_TORCH@ == pip_show_command("pip"@, "torch"@),
        PIP3_TORCH@ == pip_show_command("pip3"@, "torch"@),
        CONDA_TENSORFLOW@ == conda_list_command("tensorflow"@),
        CONDA_PYTORCH@ == conda_list_command("pytorch"@),
        CONDA_TORCH@ == conda_list_command("torch"@),
{
    reveal_strlit("pip");
    reveal_strlit("pip3");
    reveal_strlit("tensorflow");
    reveal_strlit("torch");
    reveal_strlit("pytorch");
    reveal_strlit(" show ");
    reveal_strlit("conda list ");
    reveal_strlit("pip show tensorflow");
    reveal_strlit("pip3 show tensorflow");
    reveal_strlit("pip show torch");
    reveal_strlit("pip3 show torch");
    reveal_strlit("conda list tensorflow");
    reveal_strlit("conda list pytorch");
    reveal_strlit("conda list torch");
    assert(PIP_TENSORFLOW@ =~= pip_show_command("pip"@, "tensorflow"@));
    assert(PIP3_TENSORFLOW@ =~= pip_show_command("pip3"@, "tensorflow"@));
    assert(PIP_TORCH@ =~= pip_show_command("pip"@, "torch"@));
    assert(PIP3_TORCH@ =~= pip_show_command("pip3"@, "torch"@));
    assert(CONDA_TENSORFLOW@ =~= conda_list_command("tensorflow"@));
    assert(CONDA_PYTORCH@ =~= conda_list_command("pytorch"@));
    assert(CONDA_TORCH@ =~= conda_list_command("torch"@));
}

} // verus!
