//! The summaries the control window shows: operation feedback, kernel
//! readiness, PipeWire node and route health, driver range warnings, native
//! sample rates, and import previews.

use vstd::prelude::*;
use vstd::string::*;

use crate::controls::{
    headphone_issue, headphone_playback_issue, opt_text, selected_choice_of, selected_of,
    ControlSnapshot, Level,
};
use crate::device::{id_pair_text, Ae5Device};
use crate::device_state::{PipeWireNode, PipeWireRouteState};
use crate::text::{
    decimal, has_prefix, join_strings, join_with, opt_string_view, owned, push_decimal, push_signed, push_str,
    signed_decimal, starts_with, str_eq, strings_view,
};

verus! {

/// The outcome of the last operation, shown until another one replaces it.
#[derive(Clone, Debug, PartialEq, Eq)]
pub struct OperationStatus {
    pub success: bool,
    pub message: String,
}

/// The status shown after a refresh: a new message is a success; without
/// one, the status from before the refresh is kept.
pub fn operation_status_for_refresh(message: Option<&str>, retained: Option<OperationStatus>) -> (r: Option<
    OperationStatus,
>)
    ensures
        match message {
            Some(m) => r is Some && r->0.success && r->0.message@ == m@,
            None => r == retained,
        },
{
    match message {
        Some(m) => Some(OperationStatus { success: true, message: owned(m) }),
        None => retained,
    }
}

/// How a hardware level reads: its ceiling is the fixed 0 dB stage, any
/// other value reads as raw steps.
pub open spec fn level_label(level: Level) -> Seq<char> {
    if level.value == level.max {
        "0 dB"@
    } else {
        signed_decimal(level.value as int) + "/"@ + signed_decimal(level.max as int) + " raw"@
    }
}

/// How a hardware level reads.
pub fn hardware_level_label(level: &Level) -> (r: String)
    ensures
        r@ == level_label(*level),
{
    if level.value == level.max {
        owned("0 dB")
    } else {
        let mut out = String::new();
        push_signed(&mut out, level.value);
        push_str(&mut out, "/");
        push_signed(&mut out, level.max);
        push_str(&mut out, " raw");
        out
    }
}

/// Whether the running kernel is ready for driver testing.
#[derive(Copy, Clone, Debug, PartialEq, Eq, Structural)]
pub enum KernelReadiness {
    /// A clean kernel with every project interface present.
    Ready,
    /// A clean kernel on the stock-compatible control path.
    Stock,
    /// A tainted kernel, or one whose taint is unknown.
    Attention,
}

/// The readiness of a kernel with the given taint and project interfaces.
pub open spec fn readiness_of(taint: Option<u64>, direct_mode: bool, lighting: bool) -> KernelReadiness {
    if taint == Some(0u64) {
        if direct_mode && lighting {
            KernelReadiness::Ready
        } else {
            KernelReadiness::Stock
        }
    } else {
        KernelReadiness::Attention
    }
}

/// How the kernel taint reads.
pub open spec fn taint_text(taint: Option<u64>) -> Seq<char> {
    match taint {
        Some(v) => if v == 0 {
            "0 (clean)"@
        } else {
            decimal(v as nat) + " (review before driver testing)"@
        },
        None => "unavailable"@,
    }
}

/// The closing sentence for a readiness.
pub open spec fn readiness_conclusion(r: KernelReadiness) -> Seq<char> {
    match r {
        KernelReadiness::Ready => "Project interfaces detected; physical acceptance is still pending."@,
        KernelReadiness::Stock => "Stock-compatible control path active; project-only interfaces are not all present."@,
        KernelReadiness::Attention => "Kernel state needs review before physical driver testing."@,
    }
}

/// The kernel readiness summary.
pub open spec fn kernel_summary_text(release: Seq<char>, taint: Option<u64>, direct_mode: bool, lighting: bool) -> Seq<char> {
    "Running kernel: "@ + release + "\nKernel taint: "@ + taint_text(taint) + "\nDirect Mode: "@ + (if direct_mode {
        "available"@
    } else {
        "unavailable"@
    }) + "\nOnboard lighting: "@ + (if lighting {
        "available (five LEDs)"@
    } else {
        "unavailable"@
    }) + "\n"@ + readiness_conclusion(readiness_of(taint, direct_mode, lighting))
}

/// Summarizes the running kernel for driver testing: its release, taint,
/// and which project interfaces are present, and how ready it is.
pub fn kernel_readiness_summary(release: &str, taint: Option<u64>, direct_mode: bool, lighting: bool) -> (r: (
    String,
    KernelReadiness,
))
    ensures
        r.0@ == kernel_summary_text(release@, taint, direct_mode, lighting),
        r.1 == readiness_of(taint, direct_mode, lighting),
{
    let readiness = match taint {
        Some(0) => if direct_mode && lighting {
            KernelReadiness::Ready
        } else {
            KernelReadiness::Stock
        },
        _ => KernelReadiness::Attention,
    };
    let mut out = owned("Running kernel: ");
    push_str(&mut out, release);
    push_str(&mut out, "\nKernel taint: ");
    match taint {
        Some(0) => push_str(&mut out, "0 (clean)"),
        Some(value) => {
            push_decimal(&mut out, value);
            push_str(&mut out, " (review before driver testing)");
        },
        None => push_str(&mut out, "unavailable"),
    }
    push_str(&mut out, "\nDirect Mode: ");
    push_str(&mut out, if direct_mode {
        "available"
    } else {
        "unavailable"
    });
    push_str(&mut out, "\nOnboard lighting: ");
    push_str(&mut out, if lighting {
        "available (five LEDs)"
    } else {
        "unavailable"
    });
    push_str(&mut out, "\n");
    push_str(&mut out, match readiness {
        KernelReadiness::Ready => "Project interfaces detected; physical acceptance is still pending.",
        KernelReadiness::Stock => "Stock-compatible control path active; project-only interfaces are not all present.",
        KernelReadiness::Attention => "Kernel state needs review before physical driver testing.",
    });
    proof {
        assert(out@ =~= kernel_summary_text(release@, taint, direct_mode, lighting));
    }
    (out, readiness)
}

/// The state of the PipeWire native-rates configuration file.
#[derive(Clone, Debug, PartialEq, Eq)]
pub struct NativeRatesConfig {
    pub path: String,
    pub enabled: bool,
}

/// How the native-rates configuration reads.
pub open spec fn native_rates_text(enabled: bool) -> Seq<char> {
    if enabled {
        "Enabled in PipeWire configuration\n44.1, 48, and 96 kHz"@
    } else {
        "Disabled\nUsing the distribution PipeWire defaults"@
    }
}

/// How the native-rates configuration reads.
pub fn native_rates_summary(config: &NativeRatesConfig) -> (r: String)
    ensures
        r@ == native_rates_text(config.enabled),
{
    if config.enabled {
        owned("Enabled in PipeWire configuration\n44.1, 48, and 96 kHz")
    } else {
        owned("Disabled\nUsing the distribution PipeWire defaults")
    }
}

/// How the node volume reads.
pub open spec fn node_volume_text(volume: Option<u16>) -> Seq<char> {
    match volume {
        Some(v) => "PipeWire node volume: "@ + decimal(v as nat)
            + "%\nWith the installed AE-5 soft-mixer profile, this is software attenuation and does not rewrite Master, Front, or PCM."@,
        None => "PipeWire node volume unavailable"@,
    }
}

/// The summary of the PipeWire playback node.
pub open spec fn node_summary_text(node: PipeWireNode) -> Seq<char> {
    node.description@ + "\n"@ + node.node_name@ + " — "@ + (if node.is_default {
        "currently default"@
    } else {
        "not default"@
    }) + "\n"@ + node_volume_text(node.volume_percent)
}

/// The summary of the PipeWire playback node: its names, whether it is the
/// default, and its volume.
pub fn pipewire_node_summary(node: &PipeWireNode) -> (r: String)
    ensures
        r@ == node_summary_text(*node),
{
    let mut out = owned(node.description.as_str());
    push_str(&mut out, "\n");
    push_str(&mut out, node.node_name.as_str());
    push_str(&mut out, " — ");
    push_str(&mut out, if node.is_default {
        "currently default"
    } else {
        "not default"
    });
    push_str(&mut out, "\n");
    match node.volume_percent {
        Some(volume) => {
            push_str(&mut out, "PipeWire node volume: ");
            push_decimal(&mut out, volume as u64);
            push_str(
                &mut out,
                "%\nWith the installed AE-5 soft-mixer profile, this is software attenuation and does not rewrite Master, Front, or PCM.",
            );
        },
        None => push_str(&mut out, "PipeWire node volume unavailable"),
    }
    proof {
        assert(out@ =~= node_summary_text(*node));
    }
    out
}

/// A one-item list of `o`'s value, or an empty list.
pub open spec fn listed(o: Option<Seq<char>>) -> Seq<Seq<char>> {
    match o {
        Some(s) => seq![s],
        None => Seq::empty(),
    }
}

/// `o`'s characters, or `fallback` when it is absent.
pub open spec fn or_text(o: Option<String>, fallback: Seq<char>) -> Seq<char> {
    match o {
        Some(s) => s@,
        None => fallback,
    }
}

/// The route problems: PipeWire's output verdict, the headphone DAC path,
/// and PipeWire's input verdict, in that order.
pub open spec fn route_problems(
    cs: Seq<ControlSnapshot>,
    output_issue: Option<Seq<char>>,
    input_issue: Option<Seq<char>>,
) -> Seq<Seq<char>> {
    listed(output_issue) + listed(headphone_issue(cs)) + listed(input_issue)
}

/// The first line of the route report.
pub open spec fn route_headline(problems: Seq<Seq<char>>) -> Seq<char> {
    if problems.len() == 0 {
        "Matched"@
    } else {
        "Needs attention"@
    }
}

/// The route report after its first line: both layers' routes, the card
/// profile, and the problems found.
pub open spec fn route_report_body(
    state: PipeWireRouteState,
    output: Seq<char>,
    input: Seq<char>,
    problems: Seq<Seq<char>>,
) -> Seq<char> {
    "\nALSA output: "@ + output + "\nPipeWire output: "@ + or_text(state.output_route, "unavailable"@)
        + "\nALSA input: "@ + input + "\nPipeWire input: "@ + or_text(state.input_route, "unavailable"@)
        + "\nProfile: "@ + or_text(state.active_profile, "unavailable"@) + " ("@ + or_text(
        state.profile_set,
        "unknown profile set"@,
    ) + ")"@ + (if problems.len() == 0 {
        Seq::empty()
    } else {
        "\n"@ + join_with(problems, "\n"@)
    })
}

/// The route report for a readable PipeWire state and the three ALSA choices.
pub open spec fn route_report_text(
    state: PipeWireRouteState,
    output: Seq<char>,
    input: Seq<char>,
    problems: Seq<Seq<char>>,
) -> Seq<char> {
    route_headline(problems) + route_report_body(state, output, input, problems)
}

/// The route health summary and whether the routes are healthy.
pub open spec fn route_health(
    cs: Seq<ControlSnapshot>,
    current: Result<PipeWireRouteState, String>,
    output_issue: Option<Seq<char>>,
    input_issue: Option<Seq<char>>,
) -> (Seq<char>, bool) {
    match current {
        Err(e) => ("PipeWire route status is unavailable: "@ + e@, false),
        Ok(state) => match selected_of(cs, "Output Select"@) {
            None => ("Output Select is unavailable from ALSA."@, false),
            Some(output) => match selected_of(cs, "Surround Channel Config"@) {
                None => ("Surround Channel Config is unavailable from ALSA."@, false),
                Some(_) => match selected_of(cs, "Input Source"@) {
                    None => ("Input Source is unavailable from ALSA."@, false),
                    Some(input) => {
                        let problems = route_problems(cs, output_issue, input_issue);
                        (route_report_text(state, output, input, problems), problems.len() == 0)
                    },
                },
            },
        },
    }
}

fn push_or(out: &mut String, o: &Option<String>, fallback: &str)
    ensures
        final(out)@ == old(out)@ + or_text(*o, fallback@),
{
    match o {
        Some(s) => push_str(out, s.as_str()),
        None => push_str(out, fallback),
    }
}

/// Appends the route report after its first line.
fn push_route_body(out: &mut String, state: &PipeWireRouteState, output: &str, input: &str, issues: &Vec<String>)
    ensures
        final(out)@ == old(out)@ + route_report_body(*state, output@, input@, strings_view(issues@)),
{
    push_str(out, "\nALSA output: ");
    push_str(out, output);
    push_str(out, "\nPipeWire output: ");
    push_or(out, &state.output_route, "unavailable");
    push_str(out, "\nALSA input: ");
    push_str(out, input);
    push_str(out, "\nPipeWire input: ");
    push_or(out, &state.input_route, "unavailable");
    push_str(out, "\nProfile: ");
    push_or(out, &state.active_profile, "unavailable");
    push_str(out, " (");
    push_or(out, &state.profile_set, "unknown profile set");
    push_str(out, ")");
    if issues.len() > 0 {
        push_str(out, "\n");
        let joined = join_strings(issues, "\n");
        push_str(out, joined.as_str());
    }
    proof {
        assert(out@ =~= old(out)@ + route_report_body(*state, output@, input@, strings_view(issues@)));
    }
}

/// Whether the desktop routes match the ALSA choices, and the summary that
/// says so.  `output_issue` and `input_issue` are what the PipeWire layer
/// reports of `current` against the selected output, speaker layout and
/// input; the headphone DAC path is checked here from the controls.
pub fn route_health_summary(
    controls: &[ControlSnapshot],
    current: &Result<PipeWireRouteState, String>,
    output_issue: Option<&str>,
    input_issue: Option<&str>,
) -> (r: (String, bool))
    ensures
        (r.0@, r.1) == route_health(controls@, *current, opt_text(output_issue), opt_text(input_issue)),
{
    let state = match current {
        Err(e) => {
            let mut out = owned("PipeWire route status is unavailable: ");
            push_str(&mut out, e.as_str());
            return (out, false);
        },
        Ok(state) => state,
    };
    let output = match selected_choice_of(controls, "Output Select") {
        Some(o) => o,
        None => {
            return (owned("Output Select is unavailable from ALSA."), false);
        },
    };
    if selected_choice_of(controls, "Surround Channel Config").is_none() {
        return (owned("Surround Channel Config is unavailable from ALSA."), false);
    }
    let input = match selected_choice_of(controls, "Input Source") {
        Some(i) => i,
        None => {
            return (owned("Input Source is unavailable from ALSA."), false);
        },
    };
    let mut issues: Vec<String> = Vec::new();
    if let Some(issue) = output_issue {
        issues.push(owned(issue));
    }
    if let Some(issue) = headphone_playback_issue(controls) {
        issues.push(owned(issue));
    }
    if let Some(issue) = input_issue {
        issues.push(owned(issue));
    }
    let ghost problems = route_problems(controls@, opt_text(output_issue), opt_text(input_issue));
    assert(strings_view(issues@) =~= problems);
    let healthy = issues.len() == 0;
    let mut out = owned(if healthy {
        "Matched"
    } else {
        "Needs attention"
    });
    push_route_body(&mut out, state, output.as_str(), input.as_str(), &issues);
    (out, healthy)
}

/// The warning for one level that lies outside its declared range.
pub open spec fn level_warning(name: Seq<char>, direction: Seq<char>, level: Option<Level>) -> Seq<Seq<char>> {
    match level {
        Some(l) => if l.min <= l.value <= l.max {
            Seq::empty()
        } else {
            seq![
                name + " "@ + direction + " value "@ + signed_decimal(l.value as int) + " is outside "@
                    + signed_decimal(l.min as int) + ".."@ + signed_decimal(l.max as int),
            ]
        },
        None => Seq::empty(),
    }
}

/// The range warnings of every control, playback before capture.
pub open spec fn range_warnings(cs: Seq<ControlSnapshot>) -> Seq<Seq<char>>
    decreases cs.len(),
{
    if cs.len() == 0 {
        Seq::empty()
    } else {
        range_warnings(cs.drop_last()) + level_warning(cs.last().name@, "playback"@, cs.last().playback_level)
            + level_warning(cs.last().name@, "capture"@, cs.last().capture_level)
    }
}

fn push_level_warning(out: &mut Vec<String>, name: &str, direction: &str, level: &Option<Level>)
    ensures
        strings_view(final(out)@) == strings_view(old(out)@) + level_warning(name@, direction@, *level),
{
    if let Some(l) = level {
        if !(l.min <= l.value && l.value <= l.max) {
            let mut text = owned(name);
            push_str(&mut text, " ");
            push_str(&mut text, direction);
            push_str(&mut text, " value ");
            push_signed(&mut text, l.value);
            push_str(&mut text, " is outside ");
            push_signed(&mut text, l.min);
            push_str(&mut text, "..");
            push_signed(&mut text, l.max);
            let ghost before = strings_view(out@);
            out.push(text);
            assert(strings_view(out@) =~= before.push(text@));
            assert(strings_view(out@) =~= before + level_warning(name@, direction@, *level));
            return;
        }
    }
    assert(strings_view(out@) =~= strings_view(old(out)@) + level_warning(name@, direction@, *level));
}

/// The controls whose driver reports a value outside its own declared range.
pub fn driver_range_warnings(controls: &[ControlSnapshot]) -> (r: Vec<String>)
    ensures
        strings_view(r@) == range_warnings(controls@),
{
    let mut out: Vec<String> = Vec::new();
    let mut i: usize = 0;
    while i < controls.len()
        invariant
            i <= controls@.len(),
            strings_view(out@) == range_warnings(controls@.take(i as int)),
        decreases controls.len() - i,
    {
        let control = &controls[i];
        push_level_warning(&mut out, control.name.as_str(), "playback", &control.playback_level);
        push_level_warning(&mut out, control.name.as_str(), "capture", &control.capture_level);
        proof {
            let t = controls@.take(i + 1);
            assert(t.drop_last() =~= controls@.take(i as int));
            assert(t.last() == controls@[i as int]);
        }
        i += 1;
    }
    assert(controls@.take(controls@.len() as int) =~= controls@);
    out
}

/// The bullet lines of a preview section: at most `limit` items, a line
/// for how many more there are, or `None` for an empty list.
pub open spec fn preview_lines(items: Seq<Seq<char>>, limit: nat) -> Seq<Seq<char>> {
    let shown = if items.len() <= limit {
        items
    } else {
        items.take(limit as int)
    };
    let lines = shown.map_values(|item: Seq<char>| "• "@ + item) + if items.len() > limit {
        seq!["…and "@ + decimal((items.len() - limit) as nat) + " more"@]
    } else {
        Seq::<Seq<char>>::empty()
    };
    if lines.len() == 0 {
        seq!["None"@]
    } else {
        lines
    }
}

/// A titled preview section of report items.
pub open spec fn preview_section_text(title: Seq<char>, items: Seq<Seq<char>>, limit: nat) -> Seq<char> {
    title + " ("@ + decimal(items.len()) + ")\n"@ + join_with(preview_lines(items, limit), "\n"@)
}

/// A titled preview section listing at most `limit` of `items`.
pub fn report_preview_section(title: &str, items: &[String], limit: usize) -> (r: String)
    ensures
        r@ == preview_section_text(title@, strings_view(items@), limit as nat),
{
    let ghost all = strings_view(items@);
    let shown: usize = if items.len() <= limit {
        items.len()
    } else {
        limit
    };
    let mut lines: Vec<String> = Vec::new();
    let mut i: usize = 0;
    while i < shown
        invariant
            shown <= items@.len(),
            shown == (if items@.len() <= limit { items@.len() } else { limit as nat }),
            i <= shown,
            all == strings_view(items@),
            strings_view(lines@) == all.take(i as int).map_values(|item: Seq<char>| "• "@ + item),
        decreases shown - i,
    {
        let mut line = owned("• ");
        push_str(&mut line, items[i].as_str());
        let ghost before = strings_view(lines@);
        lines.push(line);
        proof {
            assert(all[i as int] == items@[i as int]@);
            assert(strings_view(lines@) =~= before.push(line@));
            assert(all.take(i + 1).map_values(|item: Seq<char>| "• "@ + item) =~= all.take(i as int).map_values(
                |item: Seq<char>| "• "@ + item,
            ).push("• "@ + all[i as int]));
        }
        i += 1;
    }
    let ghost bullets = strings_view(lines@);
    if items.len() > limit {
        let mut more = owned("…and ");
        push_decimal(&mut more, (items.len() - limit) as u64);
        push_str(&mut more, " more");
        lines.push(more);
        proof {
            assert(strings_view(lines@) =~= bullets.push(more@));
        }
    }
    let ghost expected_lines = preview_lines(all, limit as nat);
    proof {
        let shown_items = if all.len() <= limit { all } else { all.take(limit as int) };
        assert(all.take(shown as int) =~= shown_items);
        if items@.len() > limit {
            assert(strings_view(lines@) =~= shown_items.map_values(|item: Seq<char>| "• "@ + item) + seq![
                "…and "@ + decimal((all.len() - limit) as nat) + " more"@,
            ]);
        } else {
            assert(strings_view(lines@) =~= shown_items.map_values(|item: Seq<char>| "• "@ + item)
                + Seq::<Seq<char>>::empty());
        }
    }
    if lines.len() == 0 {
        lines.push(owned("None"));
        proof {
            assert(strings_view(lines@) =~= seq!["None"@]);
        }
    }
    assert(strings_view(lines@) == expected_lines);
    let mut out = owned(title);
    push_str(&mut out, " (");
    push_decimal(&mut out, items.len() as u64);
    push_str(&mut out, ")\n");
    let joined = join_strings(&lines, "\n");
    push_str(&mut out, joined.as_str());
    proof {
        assert(all.len() == items@.len());
        assert(out@ =~= preview_section_text(title@, all, limit as nat));
    }
    out
}

/// What a Sound Blaster Command import maps: exactly, approximately, or not at all.
#[derive(Clone, Debug, PartialEq, Eq)]
pub struct SbCommandImportReport {
    pub exact: Vec<String>,
    pub approximate: Vec<String>,
    pub unsupported: Vec<String>,
}

/// The preview shown before an import is saved.
pub open spec fn migration_preview_text(controls: nat, report: SbCommandImportReport) -> Seq<char> {
    decimal(controls) + " validated Linux controls will be saved. Unsupported settings are skipped.\n\n"@
        + preview_section_text("Exact mappings"@, strings_view(report.exact@), 8) + "\n\n"@
        + preview_section_text("Approximate mappings"@, strings_view(report.approximate@), 12) + "\n\n"@
        + preview_section_text("Unsupported settings"@, strings_view(report.unsupported@), usize::MAX as nat)
}

/// The preview shown before an import of `controls` validated controls is
/// saved: up to eight exact and twelve approximate mappings, and every
/// unsupported setting.
pub fn migration_preview(controls: usize, report: &SbCommandImportReport) -> (r: String)
    ensures
        r@ == migration_preview_text(controls as nat, *report),
{
    let mut out = String::new();
    push_decimal(&mut out, controls as u64);
    push_str(&mut out, " validated Linux controls will be saved. Unsupported settings are skipped.\n\n");
    let exact = report_preview_section("Exact mappings", report.exact.as_slice(), 8);
    push_str(&mut out, exact.as_str());
    push_str(&mut out, "\n\n");
    let approximate = report_preview_section("Approximate mappings", report.approximate.as_slice(), 12);
    push_str(&mut out, approximate.as_str());
    push_str(&mut out, "\n\n");
    let unsupported = report_preview_section("Unsupported settings", report.unsupported.as_slice(), usize::MAX);
    push_str(&mut out, unsupported.as_str());
    proof {
        assert(out@ =~= migration_preview_text(controls as nat, *report));
    }
    out
}

/// The identity lines of the detected card: ALSA card and names, PCI ids,
/// and codec.
pub open spec fn identity_lines(d: Ae5Device) -> Seq<Seq<char>> {
    seq![
        "ALSA card "@ + signed_decimal(d.card_index as int) + " · "@ + d.alsa_name@,
        d.alsa_long_name@,
        "PCI "@ + id_pair_text(d.vendor_id, d.device_id) + " · subsystem "@ + id_pair_text(
            d.subsystem_vendor_id,
            d.subsystem_device_id,
        ),
        "Codec "@ + or_text(d.codec_name, "not reported"@),
    ]
}

/// The identity lines the device page shows for the detected card.
pub fn device_identity_lines(device: &Ae5Device) -> (r: Vec<String>)
    ensures
        strings_view(r@) == identity_lines(*device),
{
    let mut card = owned("ALSA card ");
    push_signed(&mut card, device.card_index as i64);
    push_str(&mut card, " · ");
    push_str(&mut card, device.alsa_name.as_str());
    let long_name = device.alsa_long_name.clone();
    let mut ids = owned("PCI ");
    let pci = device.pci_id();
    push_str(&mut ids, pci.as_str());
    push_str(&mut ids, " · subsystem ");
    let subsystem = device.subsystem_id();
    push_str(&mut ids, subsystem.as_str());
    let mut codec = owned("Codec ");
    push_or(&mut codec, &device.codec_name, "not reported");
    let lines = vec![card, long_name, ids, codec];
    proof {
        assert(strings_view(lines@) =~= identity_lines(*device));
    }
    lines
}

/// How many controls have a selectable choice, a playback side, and a
/// recording side.
pub open spec fn capability_counts(cs: Seq<ControlSnapshot>) -> (nat, nat, nat)
    decreases cs.len(),
{
    if cs.len() == 0 {
        (0, 0, 0)
    } else {
        let (s, p, r) = capability_counts(cs.drop_last());
        let c = cs.last();
        (
            s + if c.selected is Some { 1nat } else { 0nat },
            p + if c.playback_switch is Some || c.playback_level is Some { 1nat } else { 0nat },
            r + if c.capture_switch is Some || c.capture_level is Some { 1nat } else { 0nat },
        )
    }
}

/// The capability line of the device page.
pub open spec fn capability_text(cs: Seq<ControlSnapshot>) -> Seq<char> {
    decimal(cs.len()) + " live controls · "@ + decimal(capability_counts(cs).0) + " selectable · "@
        + decimal(capability_counts(cs).1) + " playback · "@ + decimal(capability_counts(cs).2)
        + " recording"@
}

/// The capability line of the device page: how many live controls there
/// are, and how many are selectable, have a playback side, and have a
/// recording side.
pub fn capability_summary(controls: &[ControlSnapshot]) -> (r: String)
    ensures
        r@ == capability_text(controls@),
{
    let mut selectable: u64 = 0;
    let mut playback: u64 = 0;
    let mut recording: u64 = 0;
    let mut i: usize = 0;
    while i < controls.len()
        invariant
            i <= controls@.len(),
            (selectable as nat, playback as nat, recording as nat) == capability_counts(controls@.take(i as int)),
            selectable <= i,
            playback <= i,
            recording <= i,
        decreases controls.len() - i,
    {
        let c = &controls[i];
        proof {
            let t = controls@.take(i + 1);
            assert(t.drop_last() =~= controls@.take(i as int));
            assert(t.last() == controls@[i as int]);
        }
        if c.selected.is_some() {
            selectable = selectable + 1;
        }
        if c.playback_switch.is_some() || c.playback_level.is_some() {
            playback = playback + 1;
        }
        if c.capture_switch.is_some() || c.capture_level.is_some() {
            recording = recording + 1;
        }
        i += 1;
    }
    assert(controls@.take(controls@.len() as int) =~= controls@);
    let mut out = String::new();
    push_decimal(&mut out, controls.len() as u64);
    push_str(&mut out, " live controls · ");
    push_decimal(&mut out, selectable);
    push_str(&mut out, " selectable · ");
    push_decimal(&mut out, playback);
    push_str(&mut out, " playback · ");
    push_decimal(&mut out, recording);
    push_str(&mut out, " recording");
    proof {
        assert(out@ =~= capability_text(controls@));
    }
    out
}

/// The driver-range verdict the device page shows above the warnings.
pub open spec fn range_health_text(warnings: nat) -> Seq<char> {
    if warnings == 0 {
        "Driver ranges are internally consistent."@
    } else {
        "One or more driver values are outside their declared ranges."@
    }
}

/// The driver-range verdict for `warnings` range warnings.
pub fn range_health(warnings: &[String]) -> (r: &'static str)
    ensures
        r@ == range_health_text(warnings@.len()),
{
    if warnings.len() == 0 {
        "Driver ranges are internally consistent."
    } else {
        "One or more driver values are outside their declared ranges."
    }
}

/// What the window reports after an explicit route repair made `changes`.
pub open spec fn route_repair_text(changes: Seq<Seq<char>>) -> Seq<char> {
    if changes.len() == 0 {
        "Desktop routes were already healthy; no changes made."@
    } else {
        "Desktop route repaired: "@ + join_with(changes, ", "@) + "."@
    }
}

/// What the window reports after an explicit route repair.
pub fn route_repair_message(changes: &Vec<String>) -> (r: String)
    ensures
        r@ == route_repair_text(strings_view(changes@)),
{
    if changes.len() == 0 {
        owned("Desktop routes were already healthy; no changes made.")
    } else {
        let mut out = owned("Desktop route repaired: ");
        let joined = join_strings(changes, ", ");
        push_str(&mut out, joined.as_str());
        push_str(&mut out, ".");
        out
    }
}

/// The short title of an effect card.
pub open spec fn effect_title_text(name: Seq<char>) -> Seq<char> {
    if name == "FX: X-Bass"@ {
        "Bass"@
    } else if name == "FX: Dialog Plus"@ {
        "Dialog+"@
    } else if has_prefix(name, "FX: "@) {
        name.subrange(4, name.len() as int)
    } else {
        name
    }
}

/// The short title of an effect card: Command's names for X-Bass and Dialog
/// Plus, and every other effect without its `FX: ` prefix.
pub fn effect_card_title(name: &str) -> (r: String)
    ensures
        r@ == effect_title_text(name@),
{
    proof {
        reveal_strlit("FX: ");
    }
    if str_eq(name, "FX: X-Bass") {
        owned("Bass")
    } else if str_eq(name, "FX: Dialog Plus") {
        owned("Dialog+")
    } else if starts_with(name, "FX: ") {
        owned(name.substring_char(4, name.unicode_len()))
    } else {
        owned(name)
    }
}

/// The warning the profile library shows for `skipped` files that are not
/// valid profiles, when there are any.
pub open spec fn skipped_profiles_text(skipped: nat) -> Option<Seq<char>> {
    if skipped == 0 {
        None
    } else {
        Some(decimal(skipped) + " invalid JSON profile"@ + (if skipped == 1 {
            " was"@
        } else {
            "s were"@
        }) + " skipped. Open the library folder to inspect them."@)
    }
}

/// The warning the profile library shows for skipped files: how many
/// there were, with singular or plural wording; none when nothing was
/// skipped.
pub fn skipped_profiles_warning(skipped: usize) -> (r: Option<String>)
    ensures
        opt_string_view(r) == skipped_profiles_text(skipped as nat),
{
    if skipped == 0 {
        return None;
    }
    let mut out = String::new();
    push_decimal(&mut out, skipped as u64);
    push_str(&mut out, " invalid JSON profile");
    push_str(&mut out, if skipped == 1 {
        " was"
    } else {
        "s were"
    });
    push_str(&mut out, " skipped. Open the library folder to inspect them.");
    proof {
        assert(out@ =~= skipped_profiles_text(skipped as nat)->0);
    }
    Some(out)
}

/// The line a saved profile's row shows: how many controls it sets and its
/// file name.
pub open spec fn library_row_text(controls: nat, file_name: Seq<char>) -> Seq<char> {
    decimal(controls) + " controls · "@ + file_name
}

/// The line a saved profile's row shows.
pub fn library_row_detail(controls: usize, file_name: &str) -> (r: String)
    ensures
        r@ == library_row_text(controls as nat, file_name@),
{
    let mut out = String::new();
    push_decimal(&mut out, controls as u64);
    push_str(&mut out, " controls · ");
    push_str(&mut out, file_name);
    out
}

/// The desktop route is reported healthy exactly when PipeWire's state was
/// read, the three ALSA choices are known, PipeWire reports no route
/// problem, and the headphone DAC path is not muted or unreadable; and the
/// report opens with `Matched` exactly then.
pub proof fn lemma_route_healthy_only_without_problems(
    cs: Seq<ControlSnapshot>,
    current: Result<PipeWireRouteState, String>,
    output_issue: Option<Seq<char>>,
    input_issue: Option<Seq<char>>,
)
    ensures
        route_health(cs, current, output_issue, input_issue).1 <==> (current is Ok && selected_of(
            cs,
            "Output Select"@,
        ) is Some && selected_of(cs, "Surround Channel Config"@) is Some && selected_of(cs, "Input Source"@)
            is Some && output_issue is None && input_issue is None && headphone_issue(cs) is None),
        route_health(cs, current, output_issue, input_issue).1 ==> has_prefix(
            route_health(cs, current, output_issue, input_issue).0,
            "Matched"@,
        ),
{
    let problems = route_problems(cs, output_issue, input_issue);
    assert(problems.len() == listed(output_issue).len() + listed(headphone_issue(cs)).len() + listed(
        input_issue,
    ).len());
    if route_health(cs, current, output_issue, input_issue).1 {
        let state = current->Ok_0;
        let output = selected_of(cs, "Output Select"@)->0;
        let input = selected_of(cs, "Input Source"@)->0;
        let body = route_report_body(state, output, input, problems);
        reveal_strlit("Matched");
        assert(("Matched"@ + body).subrange(0, 7) =~= "Matched"@);
    }
}

/// A preview section without a limit lists every item, one bullet each,
/// so no unsupported setting is ever hidden.
pub proof fn lemma_unlimited_preview_lists_every_item(items: Seq<Seq<char>>)
    requires
        items.len() > 0,
        items.len() <= usize::MAX,
    ensures
        preview_lines(items, usize::MAX as nat) == items.map_values(|item: Seq<char>| "• "@ + item),
{
    assert(preview_lines(items, usize::MAX as nat) =~= items.map_values(|item: Seq<char>| "• "@ + item));
}

} // verus!
