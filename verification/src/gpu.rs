//! Detection of the graphics devices themselves: which devices the system
//! lists, and what the driver's management tool reports about each.

use crate::bridge::lowercase;
use crate::parse::{parse_plain_token, plain_token};
use crate::probe::{
    ask, ask_for, chain_step, outcomes, plan_view, run_chain, single_command,
    single_command_step, Parser, Platform, ProbeOutcome, ProbeResult, Step, StepView, Strategy,
    StrategyView,
};
use crate::text::{
    chars_of, contains, decimal, extend, fields, format_decimal, has_infix, join, joined,
    lemma_views_push, lines, occurs_at, push_text, result_text, slice_of, split_fields,
    split_lines, text_of, trim, trimmed, views,
};
use vstd::prelude::*;

verus! {

pub const WINDOWS_LISTING: &'static str = "wmic path win32_videocontroller get name";

pub const LINUX_LISTING: &'static str = "lspci";

pub const MACOS_LISTING: &'static str = "system_profiler SPDisplaysDataType";

pub const DEVICE_LIST: &'static str = "nvidia-smi -L";

pub const DRIVER_QUERY: &'static str =
    "nvidia-smi --query-gpu=driver_version --format=csv,noheader";

pub const DRIVER_MISSING: &'static str = "NVIDIA driver not found";

pub const BENCHMARK: &'static str = "python benchmark.py";

pub const DETAIL_QUERY: &'static str =
    "nvidia-smi --query-gpu=name,memory.total,compute_cap --format=csv,noheader,nounits";

pub const STATUS_QUERY: &'static str =
    "nvidia-smi --query-gpu=index,name,memory.total,memory.used,memory.free,utilization.gpu,utilization.memory,temperature.gpu,power.draw,power.limit --format=csv,noheader,nounits";

pub const TOPOLOGY_QUERY: &'static str = "nvidia-smi topo -m";

pub const VENDOR: &'static str = "nvidia";

pub const LISTING_HEADING: &'static str = "Name";

pub const NO_GPU: &'static str = "No NVIDIA GPUs found";

pub const NO_GPU_MACOS: &'static str =
    "No NVIDIA GPUs found (Note: Modern macOS doesn't support NVIDIA GPUs)";

pub const NO_GPU_NO_TOOLS: &'static str = "No NVIDIA GPUs found or lspci/nvidia-smi not available";

pub const SEPARATOR: &'static str = ", ";

pub const DETAIL_HINT: &'static str = "\n   ⚠️  Use nvidia-smi for detailed specs";

pub const STATUS_HEADING: &'static str = "   📊 Multi-GPU Status:\n\n";

pub const TOPOLOGY_HEADING: &'static str = "   🔗 GPU Topology:\n";

pub const FOUND_HEADING: &'static str = "   ✅ Found NVIDIA GPU(s):\n";

pub const STATUS_HINT: &'static str =
    "      ⚠️  Install nvidia-smi for detailed multi-GPU analysis\n";

/// The strategies for the driver's version: the management tool is asked,
/// and what it prints is the version once the white space around it is gone.
pub open spec fn driver_plan() -> Seq<StrategyView> {
    seq![StrategyView::command(DRIVER_QUERY@, Parser::Trimmed)]
}

/// The command that lists the system's display devices on `platform`.
pub open spec fn listing_command(platform: Platform) -> Seq<char> {
    match platform {
        Platform::Windows => WINDOWS_LISTING@,
        Platform::Linux => LINUX_LISTING@,
        Platform::MacOs => MACOS_LISTING@,
    }
}

/// What is reported when the listing names no device of the vendor.
pub open spec fn no_gpu_message(platform: Platform) -> Seq<char> {
    match platform {
        Platform::MacOs => NO_GPU_MACOS@,
        _ => NO_GPU@,
    }
}

/// Whether a line of a device listing names a device of the vendor: its
/// lower-case form holds the vendor's name. On Windows the line must also be
/// other than blank and other than the listing's heading.
pub open spec fn is_gpu_line(platform: Platform, line: Seq<char>) -> bool {
    &&& has_infix(lowercase(line), VENDOR@)
    &&& platform == Platform::Windows ==> trimmed(line).len() > 0 && line != LISTING_HEADING@
}

/// The lines of a device listing that name a device of the vendor, in order.
pub open spec fn gpu_lines(platform: Platform, rows: Seq<Seq<char>>) -> Seq<Seq<char>>
    decreases rows.len(),
{
    if rows.len() == 0 {
        Seq::empty()
    } else if is_gpu_line(platform, rows.last()) {
        gpu_lines(platform, rows.drop_last()).push(rows.last())
    } else {
        gpu_lines(platform, rows.drop_last())
    }
}

/// What a device listing amounts to: the lines that name a device of the
/// vendor, separated by a comma and a space, or the report that there is none.
pub open spec fn gpu_listing(platform: Platform, raw: Seq<char>) -> Result<Seq<char>, Seq<char>> {
    let found = gpu_lines(platform, lines(raw));
    if found.len() == 0 {
        Err(no_gpu_message(platform))
    } else {
        Ok(joined(found, SEPARATOR@))
    }
}

/// The step in looking for the vendor's devices. The platform's listing is
/// asked for first, and where it is there it decides. Where the listing
/// itself fails, Linux falls back on the driver's own device list, which
/// counts where it is not blank; the other platforms report the failure.
pub open spec fn nvidia_gpu_step(platform: Platform, history: Seq<ProbeOutcome>) -> StepView {
    if history.len() == 0 {
        ask(listing_command(platform))
    } else {
        match history[0] {
            ProbeOutcome::Success(raw) => StepView::Done(gpu_listing(platform, raw)),
            ProbeOutcome::Failure(reason) => if platform != Platform::Linux {
                StepView::Done(Err(reason))
            } else if history.len() == 1 {
                ask(DEVICE_LIST@)
            } else {
                match history[1] {
                    ProbeOutcome::Success(raw) => match plain_token(raw) {
                        Some(listing) => StepView::Done(Ok(listing)),
                        None => StepView::Done(Err(NO_GPU@)),
                    },
                    ProbeOutcome::Failure(_) => StepView::Done(Err(NO_GPU_NO_TOOLS@)),
                }
            },
        }
    }
}

/// The fields of a line of comma-separated values, each without surrounding
/// white space.
pub open spec fn csv_fields(line: Seq<char>) -> Seq<Seq<char>> {
    fields(line, ',').map_values(|field: Seq<char>| trimmed(field))
}

/// The part of the detail report for the line at position `index` of
/// `total` lines: the device's name, memory and compute capability, and an
/// empty line after every line but the last. A line with fewer than three
/// fields adds nothing.
pub open spec fn detail_block(index: nat, total: nat, line: Seq<char>) -> Seq<char> {
    let parts = csv_fields(line);
    if parts.len() >= 3 {
        "   GPU "@ + decimal(index) + ": "@ + parts[0] + "\n   Memory: "@ + parts[1]
            + " MB\n   Compute Capability: "@ + parts[2] + "\n"@ + (if index + 1 < total {
            "\n"@
        } else {
            Seq::empty()
        })
    } else {
        Seq::empty()
    }
}

/// The detail report for the first `count` of the given lines.
pub open spec fn detail_blocks(rows: Seq<Seq<char>>, count: nat) -> Seq<char>
    decreases count,
{
    if count == 0 {
        Seq::empty()
    } else {
        detail_blocks(rows, (count - 1) as nat) + detail_block(
            (count - 1) as nat,
            rows.len(),
            rows[count - 1],
        )
    }
}

/// The detail report for the output of the driver's management tool.
pub open spec fn detail_report(raw: Seq<char>) -> Seq<char> {
    detail_blocks(lines(raw), lines(raw).len())
}

/// What the plain device listing is turned into where the management tool
/// gave no details: the listing with a hint, or the listing's failure.
pub open spec fn detail_fallback(step: StepView) -> StepView {
    match step {
        StepView::Done(Ok(listing)) => StepView::Done(
            Ok("   "@ + trimmed(listing) + DETAIL_HINT@),
        ),
        other => other,
    }
}

/// The step in describing the devices in detail. The management tool is
/// asked first; where it fails, the plain device listing takes over, with the
/// rest of the history.
pub open spec fn detailed_gpu_step(platform: Platform, history: Seq<ProbeOutcome>) -> StepView {
    if history.len() == 0 {
        ask(DETAIL_QUERY@)
    } else {
        match history[0] {
            ProbeOutcome::Success(raw) => StepView::Done(Ok(detail_report(raw))),
            ProbeOutcome::Failure(_) => detail_fallback(
                nvidia_gpu_step(platform, history.drop_first()),
            ),
        }
    }
}

/// The part of the status report for one line: nothing for a line with fewer
/// than ten fields.
pub open spec fn status_block(line: Seq<char>) -> Seq<char> {
    let parts = csv_fields(line);
    if parts.len() >= 10 {
        "   🎮 GPU "@ + parts[0] + ": "@ + parts[1] + "\n      Memory: "@ + parts[3]
            + "MB used / "@ + parts[2] + "MB total ("@ + parts[4]
            + "MB free)\n      Utilization: "@ + parts[5] + "% GPU, "@ + parts[6]
            + "% Memory\n      Temperature: "@ + parts[7] + "°C\n      Power: "@ + parts[8]
            + "W / "@ + parts[9] + "W\n\n"@
    } else {
        Seq::empty()
    }
}

/// The status report for the given lines, in order.
pub open spec fn status_blocks(rows: Seq<Seq<char>>) -> Seq<char>
    decreases rows.len(),
{
    if rows.len() == 0 {
        Seq::empty()
    } else {
        status_blocks(rows.drop_last()) + status_block(rows.last())
    }
}

/// The part of the topology report for one line: the line, indented, unless
/// it is blank.
pub open spec fn topology_line(line: Seq<char>) -> Seq<char> {
    if trimmed(line).len() > 0 {
        "      "@ + line + "\n"@
    } else {
        Seq::empty()
    }
}

/// The topology report for the given lines, in order.
pub open spec fn topology_lines(rows: Seq<Seq<char>>) -> Seq<char>
    decreases rows.len(),
{
    if rows.len() == 0 {
        Seq::empty()
    } else {
        topology_lines(rows.drop_last()) + topology_line(rows.last())
    }
}

/// The first `n` items of `rows`, or all of them where there are fewer.
pub open spec fn first_rows(rows: Seq<Seq<char>>, n: nat) -> Seq<Seq<char>> {
    if rows.len() <= n {
        rows
    } else {
        rows.subrange(0, n as int)
    }
}

/// The topology part of the status report: a heading and the first ten lines
/// of what the tool printed, where it printed anything at all.
pub open spec fn topology_report(outcome: ProbeOutcome) -> Seq<char> {
    match outcome {
        ProbeOutcome::Success(raw) => TOPOLOGY_HEADING@ + topology_lines(
            first_rows(lines(raw), 10),
        ),
        ProbeOutcome::Failure(_) => Seq::empty(),
    }
}

/// The status report for several devices.
pub open spec fn status_report(status: Seq<char>, topology: ProbeOutcome) -> Seq<char> {
    STATUS_HEADING@ + status_blocks(lines(status)) + topology_report(topology)
}

/// What the plain device listing is turned into where the management tool
/// gave no status: the listing under a heading and with a hint, or the
/// listing's failure.
pub open spec fn status_fallback(step: StepView) -> StepView {
    match step {
        StepView::Done(Ok(listing)) => StepView::Done(
            Ok(FOUND_HEADING@ + ("      "@ + trimmed(listing) + "\n"@) + STATUS_HINT@),
        ),
        other => other,
    }
}

/// The step in reporting on several devices. The management tool is asked
/// for the status of each device; where it answers, it is asked for the
/// topology too, and the report is made of both, whether or not the second
/// answer came. Where the first question fails, the plain device listing
/// takes over, with the rest of the history.
pub open spec fn multiple_gpus_step(platform: Platform, history: Seq<ProbeOutcome>) -> StepView {
    if history.len() == 0 {
        ask(STATUS_QUERY@)
    } else {
        match history[0] {
            ProbeOutcome::Success(status) => if history.len() == 1 {
                ask(TOPOLOGY_QUERY@)
            } else {
                StepView::Done(Ok(status_report(status, history[1])))
            },
            ProbeOutcome::Failure(_) => status_fallback(
                nvidia_gpu_step(platform, history.drop_first()),
            ),
        }
    }
}

/// Whether a line of a device listing names a device of the vendor.
pub fn names_gpu(platform: Platform, line: &Vec<char>) -> (b: bool)
    ensures
        b == is_gpu_line(platform, line@),
{
    let lowered = text_of(line).as_str().to_lowercase();
    if !contains(&chars_of(lowered.as_str()), &chars_of(VENDOR)) {
        return false;
    }
    match platform {
        Platform::Windows => {
            let heading = chars_of(LISTING_HEADING);
            let is_heading = line.len() == heading.len() && contains(line, &heading);
            proof {
                if line@.len() == heading@.len() {
                    if has_infix(line@, heading@) {
                        let i = choose|i: int| occurs_at(line@, heading@, i);
                        assert(line@.subrange(0, line@.len() as int) == line@);
                    } else {
                        assert(line@.subrange(0, line@.len() as int) == line@);
                        assert(!occurs_at(line@, heading@, 0));
                    }
                }
            }
            trim(line).len() > 0 && !is_heading
        },
        _ => true,
    }
}

/// Reads a device listing: see `gpu_listing`.
pub fn read_gpu_listing(platform: Platform, raw: &str) -> (out: Result<String, String>)
    ensures
        result_text(out) == gpu_listing(platform, raw@),
{
    let rows = split_lines(&chars_of(raw));
    let mut found: Vec<Vec<char>> = Vec::new();
    let mut i: usize = 0;
    assert(views(rows@).subrange(0, 0) =~= Seq::<Seq<char>>::empty());
    assert(views(found@) =~= Seq::<Seq<char>>::empty());
    while i < rows.len()
        invariant
            i <= rows.len(),
            views(found@) == gpu_lines(platform, views(rows@).subrange(0, i as int)),
        decreases rows.len() - i,
    {
        let ghost next = views(rows@).subrange(0, i + 1);
        proof {
            assert(next.drop_last() =~= views(rows@).subrange(0, i as int));
            assert(next.last() == rows@[i as int]@);
        }
        if names_gpu(platform, &rows[i]) {
            let line = slice_of(&rows[i], 0, rows[i].len());
            proof {
                assert(line@ == rows@[i as int]@);
                lemma_views_push(found@, line);
            }
            found.push(line);
        }
        i = i + 1;
    }
    assert(views(rows@).subrange(0, rows@.len() as int) =~= views(rows@));
    if found.len() == 0 {
        match platform {
            Platform::MacOs => Err(NO_GPU_MACOS.to_string()),
            _ => Err(NO_GPU.to_string()),
        }
    } else {
        Ok(text_of(&join(&found, &chars_of(SEPARATOR))))
    }
}

/// The step in looking for the vendor's devices that the part of `history`
/// from position `start` on leads to.
fn check_nvidia_gpu_from(platform: Platform, history: &Vec<ProbeResult>, start: usize) -> (out:
    Step)
    requires
        start <= history.len(),
    ensures
        out@ == nvidia_gpu_step(
            platform,
            outcomes(history@).subrange(start as int, history@.len() as int),
        ),
{
    let ghost past = outcomes(history@).subrange(start as int, history@.len() as int);
    if start == history.len() {
        return match platform {
            Platform::Windows => ask_for(WINDOWS_LISTING),
            Platform::Linux => ask_for(LINUX_LISTING),
            Platform::MacOs => ask_for(MACOS_LISTING),
        };
    }
    assert(past[0] == history@[start as int]@);
    match &history[start] {
        ProbeResult::Success(raw) => Step::Done(read_gpu_listing(platform, raw.as_str())),
        ProbeResult::Failure(reason) => {
            match platform {
                Platform::Linux => {
                    if history.len() - start == 1 {
                        ask_for(DEVICE_LIST)
                    } else {
                        assert(past[1] == history@[start + 1]@);
                        match &history[start + 1] {
                            ProbeResult::Success(raw) => match parse_plain_token(
                                raw.as_str(),
                            ) {
                                Some(listing) => Step::Done(Ok(listing)),
                                None => Step::Done(Err(NO_GPU.to_string())),
                            },
                            ProbeResult::Failure(_) => Step::Done(
                                Err(NO_GPU_NO_TOOLS.to_string()),
                            ),
                        }
                    }
                },
                _ => Step::Done(Err(reason.clone())),
            }
        },
    }
}

/// The step in looking for the vendor's devices that `history` leads to: see
/// `nvidia_gpu_step`.
pub fn check_nvidia_gpu(platform: Platform, history: &Vec<ProbeResult>) -> (out: Step)
    ensures
        out@ == nvidia_gpu_step(platform, outcomes(history@)),
{
    assert(outcomes(history@).subrange(0, history@.len() as int) == outcomes(history@));
    check_nvidia_gpu_from(platform, history, 0)
}

/// Builds the plan for the driver's version.
pub fn driver_strategies() -> (plan: Vec<Strategy>)
    ensures
        plan_view(plan@) == driver_plan(),
{
    let mut plan: Vec<Strategy> = Vec::new();
    let strategy = Strategy::command(DRIVER_QUERY, Parser::Trimmed);
    assert(plan_view(plan@.push(strategy)) =~= driver_plan());
    plan.push(strategy);
    plan
}

/// The step in detecting the driver's version that `history` leads to: the
/// chain over `driver_plan`. The version is what the management tool prints
/// without the white space around it; a tool that fails or prints nothing
/// leaves the driver undetected.
pub fn get_nvidia_driver_version(history: &Vec<ProbeResult>) -> (out: Step)
    ensures
        out@ == chain_step(driver_plan(), outcomes(history@), DRIVER_MISSING@),
{
    run_chain(driver_strategies(), history, DRIVER_MISSING)
}

/// The step in running the benchmark script. What the script prints is the
/// result, as it is.
pub fn run_benchmark(history: &Vec<ProbeResult>) -> (out: Step)
    ensures
        out@ == single_command_step(BENCHMARK@, outcomes(history@)),
{
    single_command(BENCHMARK, history)
}

/// Splits a line of comma-separated values into its fields.
pub fn split_csv(line: &Vec<char>) -> (out: Vec<Vec<char>>)
    ensures
        views(out@) == csv_fields(line@),
{
    let raw = split_fields(line, ',');
    let mut out: Vec<Vec<char>> = Vec::new();
    let mut i: usize = 0;
    while i < raw.len()
        invariant
            i <= raw.len(),
            out.len() == i,
            forall|k: int| 0 <= k < i ==> out@[k]@ == trimmed(raw@[k]@),
        decreases raw.len() - i,
    {
        out.push(trim(&raw[i]));
        i = i + 1;
    }
    assert(views(out@) =~= csv_fields(line@)) by {
        assert(views(raw@) == fields(line@, ','));
        assert forall|k: int| 0 <= k < out@.len() implies views(out@)[k] == csv_fields(line@)[k] by {
            assert(views(raw@)[k] == raw@[k]@);
        }
    }
    out
}

/// Writes the part of the detail report for one line.
fn write_detail_block(index: usize, total: usize, line: &Vec<char>) -> (out: Vec<char>)
    requires
        index < total,
    ensures
        out@ == detail_block(index as nat, total as nat, line@),
{
    let parts = split_csv(line);
    if parts.len() >= 3 {
        proof {
            assert(views(parts@)[0] == parts@[0]@);
            assert(views(parts@)[1] == parts@[1]@);
            assert(views(parts@)[2] == parts@[2]@);
        }
        let mut out = chars_of("   GPU ");
        extend(&mut out, &format_decimal(index as u64));
        push_text(&mut out, ": ");
        extend(&mut out, &parts[0]);
        push_text(&mut out, "\n   Memory: ");
        extend(&mut out, &parts[1]);
        push_text(&mut out, " MB\n   Compute Capability: ");
        extend(&mut out, &parts[2]);
        push_text(&mut out, "\n");
        if index + 1 < total {
            push_text(&mut out, "\n");
        } else {
            assert(out@ + Seq::<char>::empty() =~= out@);
        }
        out
    } else {
        Vec::new()
    }
}

/// Writes the detail report for the output of the management tool.
pub fn write_detail_report(raw: &str) -> (out: String)
    ensures
        out@ == detail_report(raw@),
{
    let rows = split_lines(&chars_of(raw));
    let mut out: Vec<char> = Vec::new();
    let mut i: usize = 0;
    while i < rows.len()
        invariant
            i <= rows.len(),
            out@ == detail_blocks(views(rows@), i as nat),
        decreases rows.len() - i,
    {
        assert(views(rows@)[i as int] == rows@[i as int]@);
        let block = write_detail_block(i, rows.len(), &rows[i]);
        extend(&mut out, &block);
        i = i + 1;
    }
    text_of(&out)
}

/// The step in describing the devices in detail that `history` leads to: see
/// `detailed_gpu_step`.
pub fn get_detailed_gpu_info(platform: Platform, history: &Vec<ProbeResult>) -> (out: Step)
    ensures
        out@ == detailed_gpu_step(platform, outcomes(history@)),
{
    if history.len() == 0 {
        return ask_for(DETAIL_QUERY);
    }
    match &history[0] {
        ProbeResult::Success(raw) => Step::Done(Ok(write_detail_report(raw.as_str()))),
        ProbeResult::Failure(_) => {
            assert(outcomes(history@).drop_first() == outcomes(history@).subrange(
                1,
                history@.len() as int,
            ));
            match check_nvidia_gpu_from(platform, history, 1) {
                Step::Done(Ok(listing)) => {
                    let mut text = chars_of("   ");
                    extend(&mut text, &trim(&chars_of(listing.as_str())));
                    push_text(&mut text, DETAIL_HINT);
                    Step::Done(Ok(text_of(&text)))
                },
                other => other,
            }
        },
    }
}

/// Writes the part of the status report for one line.
fn write_status_block(line: &Vec<char>) -> (out: Vec<char>)
    ensures
        out@ == status_block(line@),
{
    let parts = split_csv(line);
    if parts.len() >= 10 {
        proof {
            assert forall|k: int| 0 <= k < 10 implies views(parts@)[k] == parts@[k]@ by {}
        }
        let mut out = chars_of("   🎮 GPU ");
        extend(&mut out, &parts[0]);
        push_text(&mut out, ": ");
        extend(&mut out, &parts[1]);
        push_text(&mut out, "\n      Memory: ");
        extend(&mut out, &parts[3]);
        push_text(&mut out, "MB used / ");
        extend(&mut out, &parts[2]);
        push_text(&mut out, "MB total (");
        extend(&mut out, &parts[4]);
        push_text(&mut out, "MB free)\n      Utilization: ");
        extend(&mut out, &parts[5]);
        push_text(&mut out, "% GPU, ");
        extend(&mut out, &parts[6]);
        push_text(&mut out, "% Memory\n      Temperature: ");
        extend(&mut out, &parts[7]);
        push_text(&mut out, "°C\n      Power: ");
        extend(&mut out, &parts[8]);
        push_text(&mut out, "W / ");
        extend(&mut out, &parts[9]);
        push_text(&mut out, "W\n\n");
        out
    } else {
        Vec::new()
    }
}

/// Writes the topology part of the status report.
fn write_topology_report(outcome: &ProbeResult) -> (out: Vec<char>)
    ensures
        out@ == topology_report(outcome@),
{
    match outcome {
        ProbeResult::Failure(_) => Vec::new(),
        ProbeResult::Success(raw) => {
            let rows = split_lines(&chars_of(raw.as_str()));
            let shown: usize = if rows.len() <= 10 {
                rows.len()
            } else {
                10
            };
            let ghost kept = first_rows(views(rows@), 10);
            let mut body: Vec<char> = Vec::new();
            let mut i: usize = 0;
            assert(kept.subrange(0, 0) =~= Seq::<Seq<char>>::empty());
            while i < shown
                invariant
                    i <= shown,
                    shown <= rows.len(),
                    kept.len() == shown,
                    forall|k: int| 0 <= k < shown ==> kept[k] == rows@[k]@,
                    body@ == topology_lines(kept.subrange(0, i as int)),
                decreases shown - i,
            {
                let ghost next = kept.subrange(0, i + 1);
                proof {
                    assert(next.drop_last() =~= kept.subrange(0, i as int));
                    assert(next.last() == rows@[i as int]@);
                }
                if trim(&rows[i]).len() > 0 {
                    let mut line = chars_of("      ");
                    extend(&mut line, &rows[i]);
                    push_text(&mut line, "\n");
                    extend(&mut body, &line);
                } else {
                    assert(body@ + Seq::<char>::empty() =~= body@);
                }
                i = i + 1;
            }
            assert(kept.subrange(0, shown as int) =~= kept);
            let mut out = chars_of(TOPOLOGY_HEADING);
            extend(&mut out, &body);
            out
        },
    }
}

/// Writes the status report for several devices.
pub fn write_status_report(status: &str, topology: &ProbeResult) -> (out: String)
    ensures
        out@ == status_report(status@, topology@),
{
    let rows = split_lines(&chars_of(status));
    let mut blocks: Vec<char> = Vec::new();
    let mut i: usize = 0;
    assert(views(rows@).subrange(0, 0) =~= Seq::<Seq<char>>::empty());
    while i < rows.len()
        invariant
            i <= rows.len(),
            blocks@ == status_blocks(views(rows@).subrange(0, i as int)),
        decreases rows.len() - i,
    {
        let ghost next = views(rows@).subrange(0, i + 1);
        proof {
            assert(next.drop_last() =~= views(rows@).subrange(0, i as int));
            assert(next.last() == rows@[i as int]@);
        }
        let block = write_status_block(&rows[i]);
        extend(&mut blocks, &block);
        i = i + 1;
    }
    assert(views(rows@).subrange(0, rows@.len() as int) =~= views(rows@));
    let mut out = chars_of(STATUS_HEADING);
    extend(&mut out, &blocks);
    extend(&mut out, &write_topology_report(topology));
    text_of(&out)
}

/// The step in reporting on several devices that `history` leads to: see
/// `multiple_gpus_step`.
pub fn check_multiple_gpus(platform: Platform, history: &Vec<ProbeResult>) -> (out: Step)
    ensures
        out@ == multiple_gpus_step(platform, outcomes(history@)),
{
    if history.len() == 0 {
        return ask_for(STATUS_QUERY);
    }
    match &history[0] {
        ProbeResult::Success(status) => {
            if history.len() == 1 {
                ask_for(TOPOLOGY_QUERY)
            } else {
                Step::Done(Ok(write_status_report(status.as_str(), &history[1])))
            }
        },
        ProbeResult::Failure(_) => {
            assert(outcomes(history@).drop_first() == outcomes(history@).subrange(
                1,
                history@.len() as int,
            ));
            match check_nvidia_gpu_from(platform, history, 1) {
                Step::Done(Ok(listing)) => {
                    let mut line = chars_of("      ");
                    extend(&mut line, &trim(&chars_of(listing.as_str())));
                    push_text(&mut line, "\n");
                    let mut text = chars_of(FOUND_HEADING);
                    extend(&mut text, &line);
                    push_text(&mut text, STATUS_HINT);
                    Step::Done(Ok(text_of(&text)))
                },
                other => other,
            }
        },
    }
}

} // verus!
