//! Probing strategies and the chain that tries them in order.
//!
//! A probe is a piece of outside work: running a command, or looking for a
//! file. This crate never carries one out. It says which probe comes next,
//! is handed what the probe gave, and decides what follows. The probes that
//! were carried out so far, in order, are the history.

use crate::parse::{
    banner_version, conda_list_version, header_version, lemma_parsers_give_tokens,
    module_version, parse_banner_version, parse_conda_list, parse_header_version,
    parse_module_version, parse_pip_show, parse_plain_token, parse_printed_value,
    parse_release_version, parse_version_file, pip_show_version, plain_token, printed_value,
    release_version, version_file_version,
};
use crate::text::{
    format_signed, is_token, result_text, signed_decimal, some_text, text_of, texts,
};
use vstd::prelude::*;

verus! {

/// The operating system that the diagnosis runs on.
#[derive(Clone, Copy, Debug, PartialEq, Eq, Structural)]
pub enum Platform {
    Windows,
    Linux,
    MacOs,
}

/// What is done with a file that a search has found.
#[derive(Clone, Copy, Debug, PartialEq, Eq, Structural)]
pub enum FollowUp {
    /// Its contents are the probe's output.
    ReadContents,
    /// It is run with `--version`; what it prints is the probe's output.
    QueryVersion,
    /// As `QueryVersion`, with the path in double quotes.
    QueryVersionQuoted,
}

/// A package that an environment manager may list.
#[derive(Clone, Copy, Debug, PartialEq, Eq, Structural)]
pub enum Package {
    TensorFlow,
    PyTorch,
    Torch,
}

/// How the output of a probe is read.
#[derive(Clone, Copy, Debug, PartialEq, Eq, Structural)]
pub enum Parser {
    /// The output without surrounding white space, where anything is left.
    Trimmed,
    /// The version an interpreter printed for an imported module.
    ModuleVersion,
    /// A value an interpreter printed, which may be absent.
    PrintedValue,
    /// A package manager's description of a package.
    PipShow,
    /// An environment manager's listing, read for the given package.
    CondaList(Package),
    /// A library header with version directives.
    HeaderVersion,
    /// A compiler banner, by its release line or else its build line.
    BannerVersion,
    /// A compiler banner, by its release line alone.
    ReleaseVersion,
    /// The toolkit's version file.
    VersionFile,
}

/// One piece of outside work.
#[derive(Debug, PartialEq, Eq)]
pub enum Probe {
    /// Run a command through the system's shell; its standard output is the
    /// probe's output, and it succeeds when the process exits with status zero.
    Command { command: String },
    /// Walk the directory tree under `root` for the first file with one of the
    /// given names. The first match is the one that counts.
    FileScan { root: String, names: Vec<String>, follow_up: FollowUp },
    /// Look for a file of the given name in each directory that the
    /// environment variable lists, in order. The first directory that holds
    /// the file is the one that counts.
    PathSearch { variable: String, name: String, follow_up: FollowUp },
}

/// The mathematical value of a `Probe`.
pub enum ProbeView {
    Command { command: Seq<char> },
    FileScan { root: Seq<char>, names: Seq<Seq<char>>, follow_up: FollowUp },
    PathSearch { variable: Seq<char>, name: Seq<char>, follow_up: FollowUp },
}

impl View for Probe {
    type V = ProbeView;

    open spec fn view(&self) -> ProbeView {
        match *self {
            Probe::Command { command } => ProbeView::Command { command: command@ },
            Probe::FileScan { root, names, follow_up } => ProbeView::FileScan {
                root: root@,
                names: texts(names@),
                follow_up,
            },
            Probe::PathSearch { variable, name, follow_up } => ProbeView::PathSearch {
                variable: variable@,
                name: name@,
                follow_up,
            },
        }
    }
}

/// A probe together with the way to read its output.
#[derive(Debug, PartialEq, Eq)]
pub struct Strategy {
    pub probe: Probe,
    pub parser: Parser,
}

/// The mathematical value of a `Strategy`.
pub struct StrategyView {
    pub probe: ProbeView,
    pub parser: Parser,
}

impl View for Strategy {
    type V = StrategyView;

    open spec fn view(&self) -> StrategyView {
        StrategyView { probe: self.probe@, parser: self.parser }
    }
}

impl StrategyView {
    /// The strategy that runs `text` as a command.
    pub open spec fn command(text: Seq<char>, parser: Parser) -> StrategyView {
        StrategyView { probe: ProbeView::Command { command: text }, parser }
    }

    /// The strategy that walks the tree under `root` for a file with one of
    /// the given names.
    pub open spec fn scan(
        root: Seq<char>,
        names: Seq<Seq<char>>,
        follow_up: FollowUp,
        parser: Parser,
    ) -> StrategyView {
        StrategyView { probe: ProbeView::FileScan { root, names, follow_up }, parser }
    }

    /// The strategy that looks for a file in the directories that an
    /// environment variable lists.
    pub open spec fn search(
        variable: Seq<char>,
        name: Seq<char>,
        follow_up: FollowUp,
        parser: Parser,
    ) -> StrategyView {
        StrategyView { probe: ProbeView::PathSearch { variable, name, follow_up }, parser }
    }
}

impl Strategy {
    /// The strategy that runs `text` as a command.
    pub fn command(text: &str, parser: Parser) -> (out: Strategy)
        ensures
            out@ == StrategyView::command(text@, parser),
    {
        Strategy { probe: Probe::Command { command: text.to_string() }, parser }
    }

    /// The strategy that walks the tree under `root` for a file with one of
    /// the given names.
    pub fn scan(root: &str, names: Vec<String>, follow_up: FollowUp, parser: Parser) -> (out:
        Strategy)
        ensures
            out@ == StrategyView::scan(root@, texts(names@), follow_up, parser),
    {
        Strategy { probe: Probe::FileScan { root: root.to_string(), names, follow_up }, parser }
    }

    /// The strategy that looks for a file in the directories that an
    /// environment variable lists.
    pub fn search(variable: &str, name: &str, follow_up: FollowUp, parser: Parser) -> (out:
        Strategy)
        ensures
            out@ == StrategyView::search(variable@, name@, follow_up, parser),
    {
        Strategy {
            probe: Probe::PathSearch {
                variable: variable.to_string(),
                name: name.to_string(),
                follow_up,
            },
            parser,
        }
    }
}

/// What one probe gave.
#[derive(Debug, PartialEq, Eq)]
pub enum ProbeResult {
    /// The probe's raw output.
    Success(String),
    /// Why the probe gave nothing.
    Failure(String),
}

/// The mathematical value of a `ProbeResult`.
pub enum ProbeOutcome {
    Success(Seq<char>),
    Failure(Seq<char>),
}

impl View for ProbeResult {
    type V = ProbeOutcome;

    open spec fn view(&self) -> ProbeOutcome {
        match *self {
            ProbeResult::Success(raw) => ProbeOutcome::Success(raw@),
            ProbeResult::Failure(reason) => ProbeOutcome::Failure(reason@),
        }
    }
}

/// The views of a history.
pub open spec fn outcomes(history: Seq<ProbeResult>) -> Seq<ProbeOutcome> {
    history.map_values(|result: ProbeResult| result@)
}

/// The views of a plan.
pub open spec fn plan_view(plan: Seq<Strategy>) -> Seq<StrategyView> {
    plan.map_values(|strategy: Strategy| strategy@)
}

/// What a detection asks for or concludes, given a history.
#[derive(Debug, PartialEq, Eq)]
pub enum Step {
    /// This probe is to be carried out next, and its result appended to the
    /// history.
    Probe(Probe),
    /// The detection is over: the value found, or why there is none.
    Done(Result<String, String>),
}

/// The mathematical value of a `Step`.
pub enum StepView {
    Probe(ProbeView),
    Done(Result<Seq<char>, Seq<char>>),
}

impl View for Step {
    type V = StepView;

    open spec fn view(&self) -> StepView {
        match *self {
            Step::Probe(probe) => StepView::Probe(probe@),
            Step::Done(result) => StepView::Done(result_text(result)),
        }
    }
}

/// The step that asks for a command to be run.
pub open spec fn ask(command: Seq<char>) -> StepView {
    StepView::Probe(ProbeView::Command { command })
}

/// The step of a detection that consists of one command whose result is
/// passed on as it is.
pub open spec fn single_command_step(command: Seq<char>, history: Seq<ProbeOutcome>) -> StepView {
    if history.len() == 0 {
        ask(command)
    } else {
        match history[0] {
            ProbeOutcome::Success(raw) => StepView::Done(Ok(raw)),
            ProbeOutcome::Failure(reason) => StepView::Done(Err(reason)),
        }
    }
}

/// The name under which an environment manager lists a package.
pub open spec fn package_name(package: Package) -> Seq<char> {
    match package {
        Package::TensorFlow => "tensorflow"@,
        Package::PyTorch => "pytorch"@,
        Package::Torch => "torch"@,
    }
}

/// The token that `parser` reads from the raw output `raw`, if it reads one.
pub open spec fn parsed(parser: Parser, raw: Seq<char>) -> Option<Seq<char>> {
    match parser {
        Parser::Trimmed => plain_token(raw),
        Parser::ModuleVersion => module_version(raw),
        Parser::PrintedValue => printed_value(raw),
        Parser::PipShow => pip_show_version(raw),
        Parser::CondaList(package) => conda_list_version(raw, package_name(package)),
        Parser::HeaderVersion => header_version(raw),
        Parser::BannerVersion => banner_version(raw),
        Parser::ReleaseVersion => release_version(raw),
        Parser::VersionFile => version_file_version(raw),
    }
}

/// The token that one attempt of a strategy yields: what its parser reads from
/// the output of a probe that succeeded, and nothing for one that failed.
pub open spec fn attempt(parser: Parser, outcome: ProbeOutcome) -> Option<Seq<char>> {
    match outcome {
        ProbeOutcome::Success(raw) => parsed(parser, raw),
        ProbeOutcome::Failure(_) => None,
    }
}

/// What a chain of strategies asks for or concludes. The strategies are tried
/// in order, one result of the history for each. The first attempt that
/// yields a token ends the chain with that token, whatever the history holds
/// after it. While no attempt has yielded one, the chain asks for the probe of
/// the first strategy that the history has no result for. When all strategies
/// have been tried in vain, the chain ends with `missing` as the reason.
pub open spec fn chain_step(
    plan: Seq<StrategyView>,
    history: Seq<ProbeOutcome>,
    missing: Seq<char>,
) -> StepView
    decreases plan.len(),
{
    if plan.len() == 0 {
        StepView::Done(Err(missing))
    } else if history.len() == 0 {
        StepView::Probe(plan[0].probe)
    } else {
        match attempt(plan[0].parser, history[0]) {
            Some(token) => StepView::Done(Ok(token)),
            None => chain_step(plan.drop_first(), history.drop_first(), missing),
        }
    }
}

/// The command that runs the program at `path` to ask for its version, for a
/// follow-up that runs a program; none for one that reads a file.
pub open spec fn version_query(path: Seq<char>, follow_up: FollowUp) -> Option<Seq<char>> {
    match follow_up {
        FollowUp::ReadContents => None,
        FollowUp::QueryVersion => Some(path + " --version"@),
        FollowUp::QueryVersionQuoted => Some("\""@ + path + "\" --version"@),
    }
}

/// The failure that a command ends in when its process reports a status other
/// than zero: the exit code, or -1 where there is none, and what the command
/// wrote to standard error.
pub open spec fn exit_failure(code: Option<i32>, stderr: Seq<char>) -> Seq<char> {
    let shown: int = match code {
        Some(c) => c as int,
        None => -1,
    };
    "Command failed with exit code "@ + signed_decimal(shown) + ": "@ + stderr
}

/// What a command gave, from how its process ended.
pub open spec fn command_outcome(
    succeeded: bool,
    code: Option<i32>,
    stdout: Seq<char>,
    stderr: Seq<char>,
) -> ProbeOutcome {
    if succeeded {
        ProbeOutcome::Success(stdout)
    } else {
        ProbeOutcome::Failure(exit_failure(code, stderr))
    }
}

/// The program through which commands are run on `platform`, and the flag
/// that makes it take the command as its next argument.
pub fn shell_of(platform: Platform) -> (out: (&'static str, &'static str))
    ensures
        platform == Platform::Windows ==> out.0@ == "cmd"@ && out.1@ == "/C"@,
        platform != Platform::Windows ==> out.0@ == "sh"@ && out.1@ == "-c"@,
{
    match platform {
        Platform::Windows => ("cmd", "/C"),
        _ => ("sh", "-c"),
    }
}

/// Makes the result of a command from how its process ended: its standard
/// output if the process reported success, else a failure that names the exit
/// code and carries the standard error.
pub fn interpret_exit(succeeded: bool, code: Option<i32>, stdout: &str, stderr: &str) -> (out:
    ProbeResult)
    ensures
        out@ == command_outcome(succeeded, code, stdout@, stderr@),
{
    if succeeded {
        ProbeResult::Success(stdout.to_string())
    } else {
        let shown: i64 = match code {
            Some(c) => c as i64,
            None => -1,
        };
        let mut reason = "Command failed with exit code ".to_string();
        reason.append(text_of(&format_signed(shown)).as_str());
        reason.append(": ");
        reason.append(stderr);
        ProbeResult::Failure(reason)
    }
}

/// Builds the command that asks the program at `path` for its version.
pub fn version_query_command(path: &str, follow_up: FollowUp) -> (out: Option<String>)
    ensures
        some_text(out) == version_query(path@, follow_up),
{
    match follow_up {
        FollowUp::ReadContents => None,
        FollowUp::QueryVersion => {
            let mut command = path.to_string();
            command.append(" --version");
            Some(command)
        },
        FollowUp::QueryVersionQuoted => {
            let mut command = "\"".to_string();
            command.append(path);
            command.append("\" --version");
            Some(command)
        },
    }
}

/// The name under which an environment manager lists `package`.
pub fn name_of(package: Package) -> (out: &'static str)
    ensures
        out@ == package_name(package),
{
    match package {
        Package::TensorFlow => "tensorflow",
        Package::PyTorch => "pytorch",
        Package::Torch => "torch",
    }
}

/// The step that asks for `command` to be run.
pub fn ask_for(command: &str) -> (out: Step)
    ensures
        out@ == ask(command@),
{
    Step::Probe(Probe::Command { command: command.to_string() })
}

/// The step of a detection that consists of one command whose result is
/// passed on as it is.
pub fn single_command(command: &str, history: &Vec<ProbeResult>) -> (out: Step)
    ensures
        out@ == single_command_step(command@, outcomes(history@)),
{
    if history.len() == 0 {
        return ask_for(command);
    }
    match &history[0] {
        ProbeResult::Success(raw) => Step::Done(Ok(raw.clone())),
        ProbeResult::Failure(reason) => Step::Done(Err(reason.clone())),
    }
}

/// Reads the raw output of a probe with the given parser.
pub fn parse_with(parser: Parser, raw: &str) -> (out: Option<String>)
    ensures
        some_text(out) == parsed(parser, raw@),
{
    match parser {
        Parser::Trimmed => parse_plain_token(raw),
        Parser::ModuleVersion => parse_module_version(raw),
        Parser::PrintedValue => parse_printed_value(raw),
        Parser::PipShow => parse_pip_show(raw),
        Parser::CondaList(package) => parse_conda_list(raw, name_of(package)),
        Parser::HeaderVersion => parse_header_version(raw),
        Parser::BannerVersion => parse_banner_version(raw),
        Parser::ReleaseVersion => parse_release_version(raw),
        Parser::VersionFile => parse_version_file(raw),
    }
}

/// Reads what one probe gave with the given parser.
pub fn attempt_with(parser: Parser, result: &ProbeResult) -> (out: Option<String>)
    ensures
        some_text(out) == attempt(parser, result@),
{
    match result {
        ProbeResult::Success(raw) => parse_with(parser, raw.as_str()),
        ProbeResult::Failure(_) => None,
    }
}

/// Runs a chain of strategies against a history: see `chain_step`.
pub fn run_chain(strategies: Vec<Strategy>, history: &Vec<ProbeResult>, missing: &str) -> (out:
    Step)
    ensures
        out@ == chain_step(plan_view(strategies@), outcomes(history@), missing@),
{
    let mut plan = strategies;
    let ghost whole = plan_view(plan@);
    let ghost past = outcomes(history@);
    let mut i: usize = 0;
    assert(whole.subrange(0, whole.len() as int) == whole);
    assert(past.subrange(0, past.len() as int) == past);
    while i < plan.len() && i < history.len()
        invariant
            i <= plan.len(),
            i <= history.len(),
            plan_view(plan@) == whole,
            whole == plan_view(strategies@),
            past == outcomes(history@),
            chain_step(whole, past, missing@) == chain_step(
                whole.subrange(i as int, whole.len() as int),
                past.subrange(i as int, past.len() as int),
                missing@,
            ),
        decreases plan.len() - i,
    {
        let ghost plan_rest = whole.subrange(i as int, whole.len() as int);
        let ghost past_rest = past.subrange(i as int, past.len() as int);
        proof {
            assert(plan_rest[0] == plan@[i as int]@);
            assert(past_rest[0] == history@[i as int]@);
            assert(plan_rest.drop_first() == whole.subrange(i + 1, whole.len() as int));
            assert(past_rest.drop_first() == past.subrange(i + 1, past.len() as int));
        }
        match attempt_with(plan[i].parser, &history[i]) {
            Some(token) => {
                return Step::Done(Ok(token));
            },
            None => {},
        }
        i = i + 1;
    }
    let ghost plan_rest = whole.subrange(i as int, whole.len() as int);
    if i < plan.len() {
        proof {
            assert(plan_rest[0] == plan@[i as int]@);
            assert(past.subrange(i as int, past.len() as int).len() == 0);
        }
        let strategy = plan.swap_remove(i);
        Step::Probe(strategy.probe)
    } else {
        assert(plan_rest.len() == 0);
        Step::Done(Err(missing.to_string()))
    }
}

/// If every strategy of the plan has been tried and no attempt yielded a
/// token, the chain ends, and ends without a value: the reason is `missing`,
/// never a token.
pub proof fn lemma_chain_exhausted(
    plan: Seq<StrategyView>,
    history: Seq<ProbeOutcome>,
    missing: Seq<char>,
)
    requires
        history.len() >= plan.len(),
        forall|i: int| 0 <= i < plan.len() ==> attempt(plan[i].parser, history[i]) is None,
    ensures
        chain_step(plan, history, missing) == StepView::Done(Err(missing)),
    decreases plan.len(),
{
    if plan.len() > 0 {
        assert(attempt(plan[0].parser, history[0]) is None);
        let plan_rest = plan.drop_first();
        let past_rest = history.drop_first();
        assert forall|i: int| 0 <= i < plan_rest.len() implies attempt(
            plan_rest[i].parser,
            past_rest[i],
        ) is None by {
            assert(plan_rest[i] == plan[i + 1]);
            assert(past_rest[i] == history[i + 1]);
        }
        lemma_chain_exhausted(plan_rest, past_rest, missing);
    }
}

/// Order is respected. If the attempts before position `k` yielded nothing
/// and the attempt at `k` yields `token`, the chain ends with `token`: no
/// later strategy is asked for, and nothing that stands later in the history
/// changes the outcome.
pub proof fn lemma_chain_first_hit(
    plan: Seq<StrategyView>,
    history: Seq<ProbeOutcome>,
    missing: Seq<char>,
    k: int,
    token: Seq<char>,
)
    requires
        0 <= k < plan.len(),
        k < history.len(),
        forall|i: int| 0 <= i < k ==> attempt(plan[i].parser, history[i]) is None,
        attempt(plan[k].parser, history[k]) == Some(token),
    ensures
        chain_step(plan, history, missing) == StepView::Done(Ok(token)),
    decreases k,
{
    if k > 0 {
        assert(attempt(plan[0].parser, history[0]) is None);
        let plan_rest = plan.drop_first();
        let past_rest = history.drop_first();
        assert forall|i: int| 0 <= i < k - 1 implies attempt(plan_rest[i].parser, past_rest[i])
            is None by {
            assert(plan_rest[i] == plan[i + 1]);
            assert(past_rest[i] == history[i + 1]);
        }
        assert(plan_rest[k - 1] == plan[k]);
        assert(past_rest[k - 1] == history[k]);
        lemma_chain_first_hit(plan_rest, past_rest, missing, k - 1, token);
    }
}

/// While the history is shorter than the plan and none of its attempts
/// yielded a token, the chain asks for the probe of the next strategy.
pub proof fn lemma_chain_continues(
    plan: Seq<StrategyView>,
    history: Seq<ProbeOutcome>,
    missing: Seq<char>,
)
    requires
        history.len() < plan.len(),
        forall|i: int| 0 <= i < history.len() ==> attempt(plan[i].parser, history[i]) is None,
    ensures
        chain_step(plan, history, missing) == StepView::Probe(plan[history.len() as int].probe),
    decreases history.len(),
{
    if history.len() > 0 {
        assert(attempt(plan[0].parser, history[0]) is None);
        let plan_rest = plan.drop_first();
        let past_rest = history.drop_first();
        assert forall|i: int| 0 <= i < past_rest.len() implies attempt(
            plan_rest[i].parser,
            past_rest[i],
        ) is None by {
            assert(plan_rest[i] == plan[i + 1]);
            assert(past_rest[i] == history[i + 1]);
        }
        assert(plan_rest[past_rest.len() as int] == plan[history.len() as int]);
        lemma_chain_continues(plan_rest, past_rest, missing);
    }
}

/// A chain ends once the history has a result for every strategy: no probe
/// is asked for beyond the plan.
pub proof fn lemma_chain_ends(
    plan: Seq<StrategyView>,
    history: Seq<ProbeOutcome>,
    missing: Seq<char>,
)
    requires
        history.len() >= plan.len(),
    ensures
        chain_step(plan, history, missing) is Done,
    decreases plan.len(),
{
    if plan.len() > 0 {
        lemma_chain_ends(plan.drop_first(), history.drop_first(), missing);
    }
}

/// A value that a chain ends with is never made up: it is the token that
/// the attempt of one strategy yielded, and no attempt before it yielded one.
pub proof fn lemma_chain_value_origin(
    plan: Seq<StrategyView>,
    history: Seq<ProbeOutcome>,
    missing: Seq<char>,
    token: Seq<char>,
)
    requires
        chain_step(plan, history, missing) == StepView::Done(Ok(token)),
    ensures
        exists|k: int|
            {
                &&& 0 <= k < plan.len()
                &&& k < history.len()
                &&& #[trigger] attempt(plan[k].parser, history[k]) == Some(token)
                &&& forall|i: int| 0 <= i < k ==> attempt(plan[i].parser, history[i]) is None
            },
    decreases plan.len(),
{
    if plan.len() > 0 && history.len() > 0 {
        if attempt(plan[0].parser, history[0]) is Some {
            assert(attempt(plan[0].parser, history[0]) == Some(token));
        } else {
            let plan_rest = plan.drop_first();
            let past_rest = history.drop_first();
            lemma_chain_value_origin(plan_rest, past_rest, missing, token);
            let k = choose|k: int|
                {
                    &&& 0 <= k < plan_rest.len()
                    &&& k < past_rest.len()
                    &&& #[trigger] attempt(plan_rest[k].parser, past_rest[k]) == Some(token)
                    &&& forall|i: int|
                        0 <= i < k ==> attempt(plan_rest[i].parser, past_rest[i]) is None
                };
            assert(plan_rest[k] == plan[k + 1]);
            assert(past_rest[k] == history[k + 1]);
            assert forall|i: int| 0 <= i < k + 1 implies attempt(plan[i].parser, history[i])
                is None by {
                if i > 0 {
                    assert(plan_rest[i - 1] == plan[i]);
                    assert(past_rest[i - 1] == history[i]);
                    assert(attempt(plan_rest[i - 1].parser, past_rest[i - 1]) is None);
                }
            }
            assert(attempt(plan[k + 1].parser, history[k + 1]) == Some(token));
        }
    }
}

/// The parsers that pass on what a pattern captured in the output.
pub open spec fn reads_capture(parser: Parser) -> bool {
    parser == Parser::BannerVersion || parser == Parser::ReleaseVersion || parser
        == Parser::VersionFile
}

/// Every token that a parser reads is complete and normalized: it is not
/// empty, and it has no white space around it. The parsers that pass on what
/// a pattern captured are left out: of a capture no more is known than that
/// it is a piece of the output.
pub proof fn lemma_parsed_is_token(parser: Parser, raw: Seq<char>)
    requires
        !reads_capture(parser),
    ensures
        parsed(parser, raw) matches Some(token) ==> is_token(token),
{
    match parser {
        Parser::CondaList(package) => lemma_parsers_give_tokens(raw, package_name(package)),
        _ => lemma_parsers_give_tokens(raw, Seq::empty()),
    }
}

/// A value that a chain ends with is a complete, normalized token, where no
/// strategy of the plan passes on what a pattern captured: a capability is
/// never reported with an empty or a ragged version.
pub proof fn lemma_chain_value_is_token(
    plan: Seq<StrategyView>,
    history: Seq<ProbeOutcome>,
    missing: Seq<char>,
    token: Seq<char>,
)
    requires
        forall|i: int| 0 <= i < plan.len() ==> !reads_capture(#[trigger] plan[i].parser),
        chain_step(plan, history, missing) == StepView::Done(Ok(token)),
    ensures
        is_token(token),
{
    lemma_chain_value_origin(plan, history, missing, token);
    let k = choose|k: int|
        {
            &&& 0 <= k < plan.len()
            &&& k < history.len()
            &&& #[trigger] attempt(plan[k].parser, history[k]) == Some(token)
            &&& forall|i: int| 0 <= i < k ==> attempt(plan[i].parser, history[i]) is None
        };
    assert(!reads_capture(plan[k].parser));
    match history[k] {
        ProbeOutcome::Success(raw) => lemma_parsed_is_token(plan[k].parser, raw),
        ProbeOutcome::Failure(_) => {},
    }
}

} // verus!
