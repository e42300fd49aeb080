//! The software Effects fallback: a PipeWire filter graph of Linux-native
//! substitutes (LADSPA plugins and builtin biquads) for the AE-5's hardware
//! effects, and the managed state that records which graph is active.
//!
//! Reading and writing the managed state file, and searching the LADSPA
//! directories, is the application's job; the decisions are made here.

use vstd::prelude::*;
use vstd::string::*;

use crate::sound_objects::{EffectsProfileEntry, effects_profile_view, same_effects_profile};
use crate::text;
use crate::text::{owned, push_decimal, push_str, str_eq};

verus! {

/// The PipeWire filter-chain slot of the software Effects; the equalizer uses slot 0.
pub const EFFECTS_FILTER_SLOT: u8 = 1;

/// The schema version of the managed state file.
pub const CONFIG_SCHEMA_VERSION: u32 = 1;

/// The LADSPA plugin files the graph loads.
pub const REQUIRED_LADSPA_PLUGINS: [&'static str; 4] = [
    "matrix_spatialiser_1422.so",
    "transient_1206.so",
    "sc4_1882.so",
    "fast_lookahead_limiter_1913.so",
];

/// The saved software Effects state.
#[derive(Clone, Debug, Eq, PartialEq)]
pub struct EffectsChainConfig {
    /// Where the managed state lives.
    pub path: String,
    pub enabled: bool,
    pub target_node: Option<String>,
    pub profile: Option<EffectsProfileEntry>,
}

/// The result of changing the saved state.
#[derive(Clone, Debug, Eq, PartialEq)]
pub struct EffectsChainChange {
    pub config: EffectsChainConfig,
    pub changed: bool,
}

/// A failed or refused software Effects operation.
#[derive(Clone, Debug, Eq, PartialEq)]
pub enum EffectsChainError {
    /// A file operation failed, or a file is not ours; the text is its message.
    Io(String),
    Invalid(String),
}

/// The text a user sees for an Effects error.
pub open spec fn effects_error_text(e: EffectsChainError) -> Seq<char> {
    match e {
        EffectsChainError::Io(m) => m@,
        EffectsChainError::Invalid(m) => m@,
    }
}

impl EffectsChainError {
    /// The text a user sees for this error.
    pub fn message(&self) -> (r: String)
        ensures
            r@ == effects_error_text(*self),
    {
        match self {
            EffectsChainError::Io(m) => m.clone(),
            EffectsChainError::Invalid(m) => m.clone(),
        }
    }
}

/// The filter-chain slot of the software Effects.
pub fn effects_filter_slot() -> (r: u8)
    ensures
        r == EFFECTS_FILTER_SLOT,
{
    EFFECTS_FILTER_SLOT
}

/// `true` or `false`.
pub open spec fn bool_text(v: bool) -> Seq<char> {
    if v {
        "true"@
    } else {
        "false"@
    }
}

/// Appends `true` or `false`.
fn push_bool(s: &mut String, v: bool)
    ensures
        final(s)@ == old(s)@ + bool_text(v),
{
    if v {
        push_str(s, "true");
    } else {
        push_str(s, "false");
    }
}

/// The identity of an active graph: its target and every setting it renders.
pub open spec fn signature_text(p: EffectsProfileEntry, target: Seq<char>) -> Seq<char> {
    "effects-v1|"@ + target + "|"@ + bool_text(p.surround_enabled) + ":"@ + text::decimal(
        p.surround_level as nat,
    ) + "|"@ + bool_text(p.crystalizer_enabled) + ":"@ + text::decimal(
        p.crystalizer_level as nat,
    ) + "|"@ + bool_text(p.bass_enabled) + ":"@ + text::decimal(p.bass_level as nat) + "|"@
        + bool_text(p.smart_volume_enabled) + ":"@ + text::decimal(p.smart_volume_level as nat)
        + ":"@ + p.smart_volume_mode@ + "|"@ + bool_text(p.dialog_enabled) + ":"@ + text::decimal(
        p.dialog_level as nat,
    )
}

/// The identity of an active graph.
fn effects_chain_signature(profile: &EffectsProfileEntry, target_node: &str) -> (r: String)
    ensures
        r@ == signature_text(*profile, target_node@),
{
    let mut s = owned("effects-v1|");
    push_str(&mut s, target_node);
    push_str(&mut s, "|");
    push_bool(&mut s, profile.surround_enabled);
    push_str(&mut s, ":");
    push_decimal(&mut s, profile.surround_level as u64);
    push_str(&mut s, "|");
    push_bool(&mut s, profile.crystalizer_enabled);
    push_str(&mut s, ":");
    push_decimal(&mut s, profile.crystalizer_level as u64);
    push_str(&mut s, "|");
    push_bool(&mut s, profile.bass_enabled);
    push_str(&mut s, ":");
    push_decimal(&mut s, profile.bass_level as u64);
    push_str(&mut s, "|");
    push_bool(&mut s, profile.smart_volume_enabled);
    push_str(&mut s, ":");
    push_decimal(&mut s, profile.smart_volume_level as u64);
    push_str(&mut s, ":");
    push_str(&mut s, profile.smart_volume_mode.as_str());
    push_str(&mut s, "|");
    push_bool(&mut s, profile.dialog_enabled);
    push_str(&mut s, ":");
    push_decimal(&mut s, profile.dialog_level as u64);
    s
}

/// The signature of the graph a saved state describes, if it describes one.
pub open spec fn config_signature(c: EffectsChainConfig) -> Option<Seq<char>> {
    if c.enabled && c.target_node is Some && c.profile is Some {
        Some(signature_text(c.profile->0, c.target_node->0@))
    } else {
        None
    }
}

/// At least one effect is both available and enabled.
pub open spec fn any_child_on(p: EffectsProfileEntry) -> bool {
    (p.surround_available && p.surround_enabled) || (p.crystalizer_available
        && p.crystalizer_enabled) || (p.bass_available && p.bass_enabled) || (
    p.smart_volume_available && p.smart_volume_enabled) || (p.dialog_available && p.dialog_enabled)
}

/// At least one effect is both available and enabled.
pub fn any_child_enabled(profile: &EffectsProfileEntry) -> (r: bool)
    ensures
        r == any_child_on(*profile),
{
    (profile.surround_available && profile.surround_enabled) || (profile.crystalizer_available
        && profile.crystalizer_enabled) || (profile.bass_available && profile.bass_enabled) || (
    profile.smart_volume_available && profile.smart_volume_enabled) || (profile.dialog_available
        && profile.dialog_enabled)
}

/// The first effect that is enabled but unavailable, if any.
pub open spec fn profile_problem(p: EffectsProfileEntry) -> Option<Seq<char>> {
    if p.surround_enabled && !p.surround_available {
        Some("Surround is enabled but unavailable in this Effects profile"@)
    } else if p.crystalizer_enabled && !p.crystalizer_available {
        Some("Crystalizer is enabled but unavailable in this Effects profile"@)
    } else if p.bass_enabled && !p.bass_available {
        Some("Bass is enabled but unavailable in this Effects profile"@)
    } else if p.smart_volume_enabled && !p.smart_volume_available {
        Some("Smart Volume is enabled but unavailable in this Effects profile"@)
    } else if p.dialog_enabled && !p.dialog_available {
        Some("Dialog+ is enabled but unavailable in this Effects profile"@)
    } else {
        None
    }
}

/// Refuses a profile that enables an effect it marks unavailable.
pub fn validate_profile(profile: &EffectsProfileEntry) -> (r: Result<(), EffectsChainError>)
    ensures
        match profile_problem(*profile) {
            Some(m) => r == Err::<(), EffectsChainError>(EffectsChainError::Invalid(r->Err_0->Invalid_0))
                && r->Err_0->Invalid_0@ == m,
            None => r is Ok,
        },
{
    if profile.surround_enabled && !profile.surround_available {
        Err(EffectsChainError::Invalid(owned("Surround is enabled but unavailable in this Effects profile")))
    } else if profile.crystalizer_enabled && !profile.crystalizer_available {
        Err(EffectsChainError::Invalid(owned("Crystalizer is enabled but unavailable in this Effects profile")))
    } else if profile.bass_enabled && !profile.bass_available {
        Err(EffectsChainError::Invalid(owned("Bass is enabled but unavailable in this Effects profile")))
    } else if profile.smart_volume_enabled && !profile.smart_volume_available {
        Err(EffectsChainError::Invalid(owned("Smart Volume is enabled but unavailable in this Effects profile")))
    } else if profile.dialog_enabled && !profile.dialog_available {
        Err(EffectsChainError::Invalid(owned("Dialog+ is enabled but unavailable in this Effects profile")))
    } else {
        Ok(())
    }
}

/// A PipeWire node name made only of ASCII letters, digits, `.`, `_` and `-`.
pub open spec fn is_node_name_char(c: char) -> bool {
    ('a' <= c && c <= 'z') || ('A' <= c && c <= 'Z') || ('0' <= c && c <= '9') || c == '.' || c
        == '_' || c == '-'
}

/// A target node name that can be written into a PipeWire configuration.
pub open spec fn is_valid_target_node(target: Seq<char>) -> bool {
    target.len() > 0 && forall|i: int| 0 <= i < target.len() ==> is_node_name_char(#[trigger] target[i])
}

/// The message for a target node that cannot be written into a configuration.
pub open spec fn bad_target_text(target: Seq<char>) -> Seq<char> {
    "PipeWire target node '"@ + target + "' contains unsupported characters"@
}

/// Refuses a target node name that could inject PipeWire configuration.
pub fn validate_target_node(target_node: &str) -> (r: Result<(), EffectsChainError>)
    ensures
        r is Ok <==> is_valid_target_node(target_node@),
        r matches Err(e) ==> e == EffectsChainError::Invalid(e->Invalid_0) && e->Invalid_0@
            == bad_target_text(target_node@),
{
    let n = target_node.unicode_len();
    let mut ok = n > 0;
    let mut i: usize = 0;
    while i < n
        invariant
            n == target_node@.len(),
            i <= n,
            ok == (n > 0 && forall|j: int| 0 <= j < i ==> is_node_name_char(#[trigger] target_node@[j])),
        decreases n - i,
    {
        let c = target_node.get_char(i);
        let code = c as u32;
        let allowed = (97 <= code && code <= 122) || (65 <= code && code <= 90) || (48 <= code
            && code <= 57) || c == '.' || c == '_' || c == '-';
        if !allowed {
            ok = false;
        }
        i += 1;
    }
    if ok {
        Ok(())
    } else {
        let mut s = owned("PipeWire target node '");
        push_str(&mut s, target_node);
        push_str(&mut s, "' contains unsupported characters");
        Err(EffectsChainError::Invalid(s))
    }
}

/// Lines joined by line feeds.
pub open spec fn join_lines(lines: Seq<Seq<char>>) -> Seq<char>
    decreases lines.len(),
{
    if lines.len() == 0 {
        Seq::empty()
    } else if lines.len() == 1 {
        lines[0]
    } else {
        join_lines(lines.drop_last()) + "\n"@ + lines.last()
    }
}

/// Lines joined by line feeds.
fn join_lines_exec(lines: &Vec<String>) -> (r: String)
    ensures
        r@ == join_lines(lines@.map_values(|l: String| l@)),
{
    let ghost all = lines@.map_values(|l: String| l@);
    let mut s = String::new();
    let mut i: usize = 0;
    while i < lines.len()
        invariant
            i <= lines@.len(),
            all == lines@.map_values(|l: String| l@),
            s@ == join_lines(all.subrange(0, i as int)),
        decreases lines.len() - i,
    {
        if i > 0 {
            push_str(&mut s, "\n");
        }
        push_str(&mut s, lines[i].as_str());
        i += 1;
        assert(all.subrange(0, i as int).drop_last() =~= all.subrange(0, i - 1));
    }
    assert(all.subrange(0, lines@.len() as int) =~= all);
    s
}

/// A filter graph under construction: its nodes, its links, the graph's
/// input ports and the ports the next stage reads from.
pub struct GraphModel {
    pub nodes: Seq<Seq<char>>,
    pub links: Seq<Seq<char>>,
    pub inputs: (Seq<char>, Seq<char>),
    pub current: (Seq<char>, Seq<char>),
}

/// One link between two ports.
pub open spec fn link_text(output: Seq<char>, input: Seq<char>) -> Seq<char> {
    "  { output = \""@ + output + "\" input = \""@ + input + "\" }"@
}

/// The unity-gain input node of one channel.
pub open spec fn input_node_text(channel: Seq<char>) -> Seq<char> {
    "  { type = builtin name = input"@ + channel
        + " label = linear control = { Mult = 1.0 Add = 0.0 } }"@
}

/// An empty graph: two unity-gain input nodes and no links.
pub open spec fn graph_start() -> GraphModel {
    GraphModel {
        nodes: seq![input_node_text("L"@), input_node_text("R"@)],
        links: Seq::empty(),
        inputs: ("inputL:In"@, "inputR:In"@),
        current: ("inputL:Out"@, "inputR:Out"@),
    }
}

/// The graph with a pair of mono nodes `{name}L` and `{name}R` appended.
pub open spec fn graph_add_mono_pair(g: GraphModel, name: Seq<char>, left: Seq<char>, right: Seq<char>) -> GraphModel {
    GraphModel {
        nodes: g.nodes.push(left).push(right),
        links: g.links.push(link_text(g.current.0, name + "L:Input"@)).push(
            link_text(g.current.1, name + "R:Input"@),
        ),
        inputs: g.inputs,
        current: (name + "L:Output"@, name + "R:Output"@),
    }
}

/// A builtin biquad node of one channel.
pub open spec fn biquad_node_text(name: Seq<char>, channel: Seq<char>, label: Seq<char>, controls: Seq<char>) -> Seq<char> {
    "  { type = builtin name = "@ + name + channel + " label = "@ + label + " control = { "@
        + controls + " } }"@
}

/// The graph with a pair of builtin biquads appended.
pub open spec fn graph_add_biquad_pair(g: GraphModel, name: Seq<char>, label: Seq<char>, controls: Seq<char>) -> GraphModel {
    GraphModel {
        nodes: g.nodes.push(biquad_node_text(name, "L"@, label, controls)).push(
            biquad_node_text(name, "R"@, label, controls),
        ),
        links: g.links.push(link_text(g.current.0, name + "L:In"@)).push(
            link_text(g.current.1, name + "R:In"@),
        ),
        inputs: g.inputs,
        current: (name + "L:Out"@, name + "R:Out"@),
    }
}

/// A stereo LADSPA node.
pub open spec fn ladspa_node_text(name: Seq<char>, plugin: Seq<char>, label: Seq<char>, controls: Seq<char>) -> Seq<char> {
    "  { type = ladspa name = "@ + name + " plugin = "@ + plugin + " label = "@ + label
        + " control = { "@ + controls + " } }"@
}

/// The graph with one stereo LADSPA node appended.
pub open spec fn graph_add_stereo_ladspa(
    g: GraphModel,
    name: Seq<char>,
    plugin: Seq<char>,
    label: Seq<char>,
    controls: Seq<char>,
    input_ports: (Seq<char>, Seq<char>),
    output_ports: (Seq<char>, Seq<char>),
) -> GraphModel {
    GraphModel {
        nodes: g.nodes.push(ladspa_node_text(name, plugin, label, controls)),
        links: g.links.push(link_text(g.current.0, name + ":"@ + input_ports.0)).push(
            link_text(g.current.1, name + ":"@ + input_ports.1),
        ),
        inputs: g.inputs,
        current: (name + ":"@ + output_ports.0, name + ":"@ + output_ports.1),
    }
}

/// The PipeWire text of a finished graph.
pub open spec fn graph_text(g: GraphModel) -> Seq<char> {
    "{ nodes = [\n"@ + join_lines(g.nodes) + "\n] links = [\n"@ + join_lines(g.links)
        + "\n] inputs = [ \""@ + g.inputs.0 + "\" \""@ + g.inputs.1 + "\" ] outputs = [ \""@
        + g.current.0 + "\" \""@ + g.current.1 + "\" ] }\n"@
}

/// Input and output port names of a stereo stage.
struct StereoPorts {
    left: String,
    right: String,
}

/// A filter graph under construction.
struct GraphBuilder {
    nodes: Vec<String>,
    links: Vec<String>,
    inputs: StereoPorts,
    current: StereoPorts,
}

impl GraphBuilder {
    /// The graph this builder holds.
    closed spec fn model(&self) -> GraphModel {
        GraphModel {
            nodes: self.nodes@.map_values(|l: String| l@),
            links: self.links@.map_values(|l: String| l@),
            inputs: (self.inputs.left@, self.inputs.right@),
            current: (self.current.left@, self.current.right@),
        }
    }

    /// An empty graph: two unity-gain input nodes.
    fn new() -> (r: Self)
        ensures
            r.model() == graph_start(),
    {
        let mut nodes: Vec<String> = Vec::new();
        let mut left = owned("  { type = builtin name = input");
        push_str(&mut left, "L");
        push_str(&mut left, " label = linear control = { Mult = 1.0 Add = 0.0 } }");
        let mut right = owned("  { type = builtin name = input");
        push_str(&mut right, "R");
        push_str(&mut right, " label = linear control = { Mult = 1.0 Add = 0.0 } }");
        nodes.push(left);
        nodes.push(right);
        let r = Self {
            nodes,
            links: Vec::new(),
            inputs: StereoPorts { left: owned("inputL:In"), right: owned("inputR:In") },
            current: StereoPorts { left: owned("inputL:Out"), right: owned("inputR:Out") },
        };
        assert(r.model().nodes =~= graph_start().nodes);
        assert(r.model().links =~= graph_start().links);
        r
    }

    /// Appends one link from `output` to `input`.
    fn push_link(&mut self, output: &str, input: &str)
        ensures
            final(self).model() == (GraphModel {
                links: old(self).model().links.push(link_text(output@, input@)),
                ..old(self).model()
            }),
    {
        let mut link = owned("  { output = \"");
        push_str(&mut link, output);
        push_str(&mut link, "\" input = \"");
        push_str(&mut link, input);
        push_str(&mut link, "\" }");
        self.links.push(link);
        assert(self.model().links =~= old(self).model().links.push(link_text(output@, input@)));
    }

    /// Appends a pair of mono nodes named `{name}L` and `{name}R`.
    fn add_mono_pair(&mut self, name: &str, left_node: String, right_node: String)
        ensures
            final(self).model() == graph_add_mono_pair(old(self).model(), name@, left_node@, right_node@),
    {
        self.nodes.push(left_node);
        self.nodes.push(right_node);
        let mut left_in = owned(name);
        push_str(&mut left_in, "L:Input");
        let mut right_in = owned(name);
        push_str(&mut right_in, "R:Input");
        let current_left = self.current.left.clone();
        let current_right = self.current.right.clone();
        self.push_link(current_left.as_str(), left_in.as_str());
        self.push_link(current_right.as_str(), right_in.as_str());
        let mut left_out = owned(name);
        push_str(&mut left_out, "L:Output");
        let mut right_out = owned(name);
        push_str(&mut right_out, "R:Output");
        self.current = StereoPorts { left: left_out, right: right_out };
        assert(self.model().nodes =~= old(self).model().nodes.push(left_node@).push(right_node@));
    }

    /// Appends a pair of builtin biquads.
    fn add_builtin_biquad_pair(&mut self, name: &str, label: &str, controls: &str)
        ensures
            final(self).model() == graph_add_biquad_pair(old(self).model(), name@, label@, controls@),
    {
        let mut left = owned("  { type = builtin name = ");
        push_str(&mut left, name);
        push_str(&mut left, "L");
        push_str(&mut left, " label = ");
        push_str(&mut left, label);
        push_str(&mut left, " control = { ");
        push_str(&mut left, controls);
        push_str(&mut left, " } }");
        let mut right = owned("  { type = builtin name = ");
        push_str(&mut right, name);
        push_str(&mut right, "R");
        push_str(&mut right, " label = ");
        push_str(&mut right, label);
        push_str(&mut right, " control = { ");
        push_str(&mut right, controls);
        push_str(&mut right, " } }");
        self.nodes.push(left);
        self.nodes.push(right);
        let mut left_in = owned(name);
        push_str(&mut left_in, "L:In");
        let mut right_in = owned(name);
        push_str(&mut right_in, "R:In");
        let current_left = self.current.left.clone();
        let current_right = self.current.right.clone();
        self.push_link(current_left.as_str(), left_in.as_str());
        self.push_link(current_right.as_str(), right_in.as_str());
        let mut left_out = owned(name);
        push_str(&mut left_out, "L:Out");
        let mut right_out = owned(name);
        push_str(&mut right_out, "R:Out");
        self.current = StereoPorts { left: left_out, right: right_out };
        assert(self.model().nodes =~= old(self).model().nodes.push(
            biquad_node_text(name@, "L"@, label@, controls@),
        ).push(biquad_node_text(name@, "R"@, label@, controls@)));
    }

    /// Appends one stereo LADSPA node.
    fn add_stereo_ladspa(
        &mut self,
        name: &str,
        plugin: &str,
        label: &str,
        controls: &str,
        input_ports: (&str, &str),
        output_ports: (&str, &str),
    )
        ensures
            final(self).model() == graph_add_stereo_ladspa(
                old(self).model(),
                name@,
                plugin@,
                label@,
                controls@,
                (input_ports.0@, input_ports.1@),
                (output_ports.0@, output_ports.1@),
            ),
    {
        let mut node = owned("  { type = ladspa name = ");
        push_str(&mut node, name);
        push_str(&mut node, " plugin = ");
        push_str(&mut node, plugin);
        push_str(&mut node, " label = ");
        push_str(&mut node, label);
        push_str(&mut node, " control = { ");
        push_str(&mut node, controls);
        push_str(&mut node, " } }");
        self.nodes.push(node);
        let mut left_in = owned(name);
        push_str(&mut left_in, ":");
        push_str(&mut left_in, input_ports.0);
        let mut right_in = owned(name);
        push_str(&mut right_in, ":");
        push_str(&mut right_in, input_ports.1);
        let current_left = self.current.left.clone();
        let current_right = self.current.right.clone();
        self.push_link(current_left.as_str(), left_in.as_str());
        self.push_link(current_right.as_str(), right_in.as_str());
        let mut left_out = owned(name);
        push_str(&mut left_out, ":");
        push_str(&mut left_out, output_ports.0);
        let mut right_out = owned(name);
        push_str(&mut right_out, ":");
        push_str(&mut right_out, output_ports.1);
        self.current = StereoPorts { left: left_out, right: right_out };
        assert(self.model().nodes =~= old(self).model().nodes.push(
            ladspa_node_text(name@, plugin@, label@, controls@),
        ));
    }

    /// The PipeWire text of the finished graph.
    fn finish(self) -> (r: String)
        ensures
            r@ == graph_text(self.model()),
    {
        let mut s = owned("{ nodes = [\n");
        let nodes = join_lines_exec(&self.nodes);
        push_str(&mut s, nodes.as_str());
        push_str(&mut s, "\n] links = [\n");
        let links = join_lines_exec(&self.links);
        push_str(&mut s, links.as_str());
        push_str(&mut s, "\n] inputs = [ \"");
        push_str(&mut s, self.inputs.left.as_str());
        push_str(&mut s, "\" \"");
        push_str(&mut s, self.inputs.right.as_str());
        push_str(&mut s, "\" ] outputs = [ \"");
        push_str(&mut s, self.current.left.as_str());
        push_str(&mut s, "\" \"");
        push_str(&mut s, self.current.right.as_str());
        push_str(&mut s, "\" ] }\n");
        s
    }
}

/// The decimal text of a value given in hundredths, without trailing zeros
/// but with at least one fractional digit: `1.5`, `-6.18`, `20.0`.
pub open spec fn number_text(hundredths: int) -> Seq<char> {
    let a = if hundredths < 0 {
        (-hundredths) as nat
    } else {
        hundredths as nat
    };
    let f = a % 100;
    (if hundredths < 0 {
        "-"@
    } else {
        Seq::empty()
    }) + text::decimal(a / 100) + if f == 0 {
        ".0"@
    } else if f % 10 == 0 {
        seq!['.', text::digit_char(f / 10)]
    } else {
        seq!['.', text::digit_char(f / 10), text::digit_char(f % 10)]
    }
}

/// The character of one decimal digit.
fn digit_char_exec(d: u64) -> (c: char)
    requires
        d < 10,
    ensures
        c == text::digit_char(d as nat),
{
    if d == 0 {
        '0'
    } else if d == 1 {
        '1'
    } else if d == 2 {
        '2'
    } else if d == 3 {
        '3'
    } else if d == 4 {
        '4'
    } else if d == 5 {
        '5'
    } else if d == 6 {
        '6'
    } else if d == 7 {
        '7'
    } else if d == 8 {
        '8'
    } else {
        '9'
    }
}

/// Appends a value given in hundredths as decimal text.
fn push_number(s: &mut String, hundredths: i64)
    requires
        hundredths > i64::MIN,
    ensures
        final(s)@ == old(s)@ + number_text(hundredths as int),
{
    let a: u64 = if hundredths < 0 {
        (-hundredths) as u64
    } else {
        hundredths as u64
    };
    if hundredths < 0 {
        push_str(s, "-");
    }
    push_decimal(s, a / 100);
    let f = a % 100;
    let ghost before = s@;
    if f == 0 {
        push_str(s, ".0");
    } else if f % 10 == 0 {
        crate::text::push_char(s, '.');
        crate::text::push_char(s, digit_char_exec(f / 10));
    } else {
        crate::text::push_char(s, '.');
        crate::text::push_char(s, digit_char_exec(f / 10));
        crate::text::push_char(s, digit_char_exec(f % 10));
    }
    proof {
        let tail = if f == 0 {
            ".0"@
        } else if f % 10 == 0 {
            seq!['.', text::digit_char((f / 10) as nat)]
        } else {
            seq!['.', text::digit_char((f / 10) as nat), text::digit_char((f % 10) as nat)]
        };
        assert(s@ =~= before + tail);
    }
}

/// The compressor settings that stand in for one Smart Volume mode and level.
pub open spec fn smart_volume_text(mode: Seq<char>, level: u16) -> Seq<char> {
    let l = level as int;
    let (threshold, ratio, makeup, attack, release) = if mode == "Night"@ {
        (-1800 - 10 * l, 500 + 5 * l, 200 + 2 * l, 2000int, 30000int)
    } else if mode == "Loud"@ {
        (-1200 - 12 * l, 300 + 5 * l, 400 + 4 * l, 1000int, 18000int)
    } else {
        (-600 - 18 * l, 100 + 5 * l, 6 * l, 1500int, 25000int)
    };
    "\"RMS/peak\" = 0.5 \"Attack time (ms)\" = "@ + number_text(attack)
        + " \"Release time (ms)\" = "@ + number_text(release) + " \"Threshold level (dB)\" = "@
        + number_text(threshold) + " \"Ratio (1:n)\" = "@ + number_text(ratio)
        + " \"Knee radius (dB)\" = 3.0 \"Makeup gain (dB)\" = "@ + number_text(makeup)
}

/// The text of a whole number of units (hundredths divisible by 100).
proof fn lemma_whole_number_text(n: nat)
    requires
        10 <= n < 1000,
    ensures
        number_text((100 * n) as int) == text::decimal(n) + ".0"@,
{
    assert((100 * n) % 100 == 0) by (nonlinear_arith);
    assert((100 * n) / 100 == n) by (nonlinear_arith);
}

/// Night mode compresses hardest and slowest, Loud mode raises the level
/// fastest: in Night mode the compressor attacks in 20 ms, releases in
/// 300 ms, and its threshold, ratio and makeup gain are -18 dB - level/10 dB,
/// 5 + level/20 and 2 dB + level/50 dB; in Loud mode it attacks in 10 ms,
/// releases in 180 ms, and they are -12 dB - 0.12 * level dB, 3 + level/20
/// and 4 dB + level/25 dB.  The values are given in hundredths.
pub proof fn lemma_smart_volume_modes(level: u16)
    ensures
        smart_volume_text("Night"@, level) == "\"RMS/peak\" = 0.5 \"Attack time (ms)\" = 20.0 \"Release time (ms)\" = 300.0 \"Threshold level (dB)\" = "@
            + number_text(-1800 - 10 * level) + " \"Ratio (1:n)\" = "@ + number_text(500 + 5 * level)
            + " \"Knee radius (dB)\" = 3.0 \"Makeup gain (dB)\" = "@ + number_text(200 + 2 * level),
        smart_volume_text("Loud"@, level) == "\"RMS/peak\" = 0.5 \"Attack time (ms)\" = 10.0 \"Release time (ms)\" = 180.0 \"Threshold level (dB)\" = "@
            + number_text(-1200 - 12 * level) + " \"Ratio (1:n)\" = "@ + number_text(300 + 5 * level)
            + " \"Knee radius (dB)\" = 3.0 \"Makeup gain (dB)\" = "@ + number_text(400 + 4 * level),
{
    reveal_strlit("Night");
    reveal_strlit("Loud");
    reveal_strlit(".0");
    reveal_strlit("20.0");
    reveal_strlit("300.0");
    reveal_strlit("10.0");
    reveal_strlit("180.0");
    reveal_strlit("\"RMS/peak\" = 0.5 \"Attack time (ms)\" = ");
    reveal_strlit(" \"Release time (ms)\" = ");
    reveal_strlit("\"RMS/peak\" = 0.5 \"Attack time (ms)\" = 20.0 \"Release time (ms)\" = 300.0 \"Threshold level (dB)\" = ");
    reveal_strlit("\"RMS/peak\" = 0.5 \"Attack time (ms)\" = 10.0 \"Release time (ms)\" = 180.0 \"Threshold level (dB)\" = ");
    reveal_strlit(" \"Threshold level (dB)\" = ");
    assert("Night"@ != "Loud"@) by {
        assert("Night"@.len() != "Loud"@.len());
    }
    lemma_whole_number_text(20);
    lemma_whole_number_text(300);
    lemma_whole_number_text(10);
    lemma_whole_number_text(180);
    reveal_with_fuel(text::decimal, 4);
    assert(number_text(2000) =~= "20.0"@);
    assert(number_text(30000) =~= "300.0"@);
    assert(number_text(1000) =~= "10.0"@);
    assert(number_text(18000) =~= "180.0"@);
    let head = "\"RMS/peak\" = 0.5 \"Attack time (ms)\" = "@;
    let rel = " \"Release time (ms)\" = "@;
    let thr = " \"Threshold level (dB)\" = "@;
    assert(head + "20.0"@ + rel + "300.0"@ + thr =~= "\"RMS/peak\" = 0.5 \"Attack time (ms)\" = 20.0 \"Release time (ms)\" = 300.0 \"Threshold level (dB)\" = "@);
    assert(head + "10.0"@ + rel + "180.0"@ + thr =~= "\"RMS/peak\" = 0.5 \"Attack time (ms)\" = 10.0 \"Release time (ms)\" = 180.0 \"Threshold level (dB)\" = "@);
}

/// The compressor settings that stand in for one Smart Volume mode and level.
pub fn smart_volume_controls(mode: &str, level: u16) -> (r: String)
    ensures
        r@ == smart_volume_text(mode@, level),
{
    let l = level as i64;
    let (threshold, ratio, makeup, attack, release): (i64, i64, i64, i64, i64) = if str_eq(
        mode,
        "Night",
    ) {
        (-1800 - 10 * l, 500 + 5 * l, 200 + 2 * l, 2000, 30000)
    } else if str_eq(mode, "Loud") {
        (-1200 - 12 * l, 300 + 5 * l, 400 + 4 * l, 1000, 18000)
    } else {
        (-600 - 18 * l, 100 + 5 * l, 6 * l, 1500, 25000)
    };
    let mut s = owned("\"RMS/peak\" = 0.5 \"Attack time (ms)\" = ");
    push_number(&mut s, attack);
    push_str(&mut s, " \"Release time (ms)\" = ");
    push_number(&mut s, release);
    push_str(&mut s, " \"Threshold level (dB)\" = ");
    push_number(&mut s, threshold);
    push_str(&mut s, " \"Ratio (1:n)\" = ");
    push_number(&mut s, ratio);
    push_str(&mut s, " \"Knee radius (dB)\" = 3.0 \"Makeup gain (dB)\" = ");
    push_number(&mut s, makeup);
    s
}

/// The transient-shaper settings that stand in for the Crystalizer level.
///
/// They are rendered by the application from floating-point arithmetic.
#[derive(Clone, Debug, Eq, PartialEq)]
pub struct CrystalizerSettings {
    pub attack: String,
    pub sustain: String,
}

/// The transient-shaper node of one channel.
pub open spec fn crystal_node_text(channel: Seq<char>, c: CrystalizerSettings) -> Seq<char> {
    "  { type = ladspa name = crystal"@ + channel
        + " plugin = transient_1206 label = transient control = { \"Attack speed\" = "@
        + c.attack@ + " \"Sustain time\" = "@ + c.sustain@ + " } }"@
}

/// The transient-shaper node of one channel.
fn crystal_node(channel: &str, settings: &CrystalizerSettings) -> (r: String)
    ensures
        r@ == crystal_node_text(channel@, *settings),
{
    let mut s = owned("  { type = ladspa name = crystal");
    push_str(&mut s, channel);
    push_str(&mut s, " plugin = transient_1206 label = transient control = { \"Attack speed\" = ");
    push_str(&mut s, settings.attack.as_str());
    push_str(&mut s, " \"Sustain time\" = ");
    push_str(&mut s, settings.sustain.as_str());
    push_str(&mut s, " } }");
    s
}

/// The limiter settings that keep the substitutes from clipping.
pub open spec fn limiter_controls_text() -> Seq<char> {
    "\"Input gain (dB)\" = 0.0 \"Limit (dB)\" = -1.0 \"Release time (s)\" = 0.1"@
}

/// The graph a profile renders to: crystalizer, bass, dialog, surround and
/// Smart Volume in that order, each only when available and enabled, then
/// a limiter when any of them is present.
pub open spec fn effects_graph_model(p: EffectsProfileEntry, c: CrystalizerSettings) -> GraphModel {
    let g0 = graph_start();
    let g1 = if p.crystalizer_available && p.crystalizer_enabled {
        graph_add_mono_pair(g0, "crystal"@, crystal_node_text("L"@, c), crystal_node_text("R"@, c))
    } else {
        g0
    };
    let g2 = if p.bass_available && p.bass_enabled {
        graph_add_biquad_pair(
            g1,
            "bass"@,
            "bq_lowshelf"@,
            "Freq = 110.0 Q = 0.7 Gain = "@ + number_text(9 * (p.bass_level as int)),
        )
    } else {
        g1
    };
    let g3 = if p.dialog_available && p.dialog_enabled {
        graph_add_biquad_pair(
            g2,
            "dialog"@,
            "bq_peaking"@,
            "Freq = 2500.0 Q = 0.8 Gain = "@ + number_text(6 * (p.dialog_level as int)),
        )
    } else {
        g2
    };
    let g4 = if p.surround_available && p.surround_enabled {
        graph_add_stereo_ladspa(
            g3,
            "surround"@,
            "matrix_spatialiser_1422"@,
            "matrixSpatialiser"@,
            "\"Width\" = "@ + text::decimal(((p.surround_level as nat) * 6) / 5),
            ("Input L"@, "Input R"@),
            ("Output L"@, "Output R"@),
        )
    } else {
        g3
    };
    let g5 = if p.smart_volume_available && p.smart_volume_enabled {
        graph_add_stereo_ladspa(
            g4,
            "volume"@,
            "sc4_1882"@,
            "sc4"@,
            smart_volume_text(p.smart_volume_mode@, p.smart_volume_level),
            ("Left input"@, "Right input"@),
            ("Left output"@, "Right output"@),
        )
    } else {
        g4
    };
    if any_child_on(p) {
        graph_add_stereo_ladspa(
            g5,
            "limiter"@,
            "fast_lookahead_limiter_1913"@,
            "fastLookaheadLimiter"@,
            limiter_controls_text(),
            ("Input 1"@, "Input 2"@),
            ("Output 1"@, "Output 2"@),
        )
    } else {
        g5
    }
}

/// The message when a graph is requested for a profile whose master is off.
pub open spec fn master_off_text() -> Seq<char> {
    "the Effects master must be enabled before rendering an active graph"@
}

/// What rendering a profile gives: its graph, or the reason it has none.
pub open spec fn render_outcome(p: EffectsProfileEntry, c: CrystalizerSettings, r: Result<String, EffectsChainError>) -> bool {
    match profile_problem(p) {
        Some(m) => r matches Err(EffectsChainError::Invalid(x)) && x@ == m,
        None => if !p.outfx_enabled {
            r matches Err(EffectsChainError::Invalid(x)) && x@ == master_off_text()
        } else {
            r matches Ok(t) && t@ == graph_text(effects_graph_model(p, c))
        },
    }
}

/// Renders the PipeWire filter graph of the software Effects substitutes.
pub fn render_effects_filter_graph(profile: &EffectsProfileEntry, crystalizer: &CrystalizerSettings) -> (r: Result<String, EffectsChainError>)
    ensures
        render_outcome(*profile, *crystalizer, r),
{
    validate_profile(profile)?;
    if !profile.outfx_enabled {
        return Err(EffectsChainError::Invalid(owned("the Effects master must be enabled before rendering an active graph")));
    }
    let mut graph = GraphBuilder::new();
    if profile.crystalizer_available && profile.crystalizer_enabled {
        let left = crystal_node("L", crystalizer);
        let right = crystal_node("R", crystalizer);
        graph.add_mono_pair("crystal", left, right);
    }
    if profile.bass_available && profile.bass_enabled {
        let mut controls = owned("Freq = 110.0 Q = 0.7 Gain = ");
        push_number(&mut controls, 9 * (profile.bass_level as i64));
        graph.add_builtin_biquad_pair("bass", "bq_lowshelf", controls.as_str());
    }
    if profile.dialog_available && profile.dialog_enabled {
        let mut controls = owned("Freq = 2500.0 Q = 0.8 Gain = ");
        push_number(&mut controls, 6 * (profile.dialog_level as i64));
        graph.add_builtin_biquad_pair("dialog", "bq_peaking", controls.as_str());
    }
    if profile.surround_available && profile.surround_enabled {
        let mut controls = owned("\"Width\" = ");
        push_decimal(&mut controls, (profile.surround_level as u64) * 6 / 5);
        graph.add_stereo_ladspa(
            "surround",
            "matrix_spatialiser_1422",
            "matrixSpatialiser",
            controls.as_str(),
            ("Input L", "Input R"),
            ("Output L", "Output R"),
        );
    }
    if profile.smart_volume_available && profile.smart_volume_enabled {
        let controls = smart_volume_controls(profile.smart_volume_mode.as_str(), profile.smart_volume_level);
        graph.add_stereo_ladspa(
            "volume",
            "sc4_1882",
            "sc4",
            controls.as_str(),
            ("Left input", "Right input"),
            ("Left output", "Right output"),
        );
    }
    if any_child_enabled(profile) {
        graph.add_stereo_ladspa(
            "limiter",
            "fast_lookahead_limiter_1913",
            "fastLookaheadLimiter",
            "\"Input gain (dB)\" = 0.0 \"Limit (dB)\" = -1.0 \"Release time (s)\" = 0.1",
            ("Input 1", "Input 2"),
            ("Output 1", "Output 2"),
        );
    }
    Ok(graph.finish())
}

/// The message when an enabled saved state has lost its profile.
pub open spec fn no_profile_text() -> Seq<char> {
    "enabled software Effects state has no profile"@
}

impl EffectsChainConfig {
    /// The identity of the graph this state describes, if it describes one.
    pub fn signature(&self) -> (r: Option<String>)
        ensures
            match config_signature(*self) {
                Some(t) => r is Some && r->0@ == t,
                None => r is None,
            },
    {
        if !self.enabled {
            return None;
        }
        match (&self.target_node, &self.profile) {
            (Some(target), Some(profile)) => Some(effects_chain_signature(profile, target.as_str())),
            _ => None,
        }
    }

    /// The graph this state describes: none when disabled.
    pub fn filter_graph(&self, crystalizer: &CrystalizerSettings) -> (r: Result<Option<String>, EffectsChainError>)
        ensures
            !self.enabled ==> r == Ok::<Option<String>, EffectsChainError>(None),
            self.enabled && self.profile is None ==> (r matches Err(EffectsChainError::Invalid(x)) && x@ == no_profile_text()),
            self.enabled && self.profile is Some ==> match profile_problem(self.profile->0) {
                Some(m) => r matches Err(EffectsChainError::Invalid(x)) && x@ == m,
                None => if !self.profile->0.outfx_enabled {
                    r matches Err(EffectsChainError::Invalid(x)) && x@ == master_off_text()
                } else {
                    r matches Ok(Some(t)) && t@ == graph_text(effects_graph_model(self.profile->0, *crystalizer))
                },
            },
    {
        if !self.enabled {
            return Ok(None);
        }
        match &self.profile {
            Some(profile) => match render_effects_filter_graph(profile, crystalizer) {
                Ok(graph) => Ok(Some(graph)),
                Err(error) => Err(error),
            },
            None => Err(EffectsChainError::Invalid(owned("enabled software Effects state has no profile"))),
        }
    }
}

/// The name of the `i`-th required LADSPA plugin, without its `.so` suffix.
pub open spec fn plugin_name(i: int) -> Seq<char> {
    if i == 0 {
        "matrix_spatialiser_1422"@
    } else if i == 1 {
        "transient_1206"@
    } else if i == 2 {
        "sc4_1882"@
    } else {
        "fast_lookahead_limiter_1913"@
    }
}

/// The name of the `i`-th required LADSPA plugin.
fn required_plugin(i: usize) -> (r: &'static str)
    requires
        i < 4,
    ensures
        r@ == plugin_name(i as int),
{
    if i == 0 {
        "matrix_spatialiser_1422"
    } else if i == 1 {
        "transient_1206"
    } else if i == 2 {
        "sc4_1882"
    } else {
        "fast_lookahead_limiter_1913"
    }
}

/// The names of the required plugins that were not found, joined by `, `.
pub open spec fn missing_plugins_text(found: Seq<bool>, upto: int) -> Seq<char>
    decreases upto,
{
    if upto <= 0 {
        Seq::empty()
    } else {
        let before = missing_plugins_text(found, upto - 1);
        if found[upto - 1] {
            before
        } else if forall|j: int| 0 <= j < upto - 1 ==> #[trigger] found[j] {
            plugin_name(upto - 1)
        } else {
            before + ", "@ + plugin_name(upto - 1)
        }
    }
}

/// Decides whether the LADSPA plugins the graph loads are installed;
/// `found[i]` tells whether the file `REQUIRED_LADSPA_PLUGINS[i]` was found.
pub fn validate_effects_runtime_support(found: &[bool]) -> (r: Result<(), EffectsChainError>)
    requires
        found@.len() == 4,
    ensures
        r is Ok <==> (forall|i: int| 0 <= i < 4 ==> #[trigger] found@[i]),
        r matches Err(e) ==> e == EffectsChainError::Invalid(e->Invalid_0) && e->Invalid_0@
            == "Linux software Effects need the ladspa-swh-plugins package; missing "@
            + missing_plugins_text(found@, 4),
{
    let mut missing = String::new();
    let mut all = true;
    let mut i: usize = 0;
    while i < 4
        invariant
            found@.len() == 4,
            i <= 4,
            missing@ == missing_plugins_text(found@, i as int),
            all == (forall|j: int| 0 <= j < i ==> #[trigger] found@[j]),
            all ==> missing@.len() == 0,
        decreases 4 - i,
    {
        let ghost before = missing@;
        let ghost all_before = all;
        if !found[i] {
            if !all {
                push_str(&mut missing, ", ");
            }
            push_str(&mut missing, required_plugin(i));
            all = false;
        }
        proof {
            let k = (i + 1) as int;
            assert(missing_plugins_text(found@, k) == if found@[k - 1] {
                missing_plugins_text(found@, k - 1)
            } else if forall|j: int| 0 <= j < k - 1 ==> #[trigger] found@[j] {
                plugin_name(k - 1)
            } else {
                missing_plugins_text(found@, k - 1) + ", "@ + plugin_name(k - 1)
            });
            if !found@[k - 1] && all_before {
                assert(missing@ =~= before + plugin_name(k - 1));
                assert(before.len() == 0);
            }
        }
        i += 1;
    }
    if all {
        Ok(())
    } else {
        let mut s = owned("Linux software Effects need the ladspa-swh-plugins package; missing ");
        push_str(&mut s, missing.as_str());
        Err(EffectsChainError::Invalid(s))
    }
}

/// The message when the saved graph targets another output.
pub open spec fn target_mismatch_text(saved: Option<Seq<char>>, target: Seq<char>) -> Seq<char> {
    "the software Effects target is "@ + match saved {
        Some(t) => t,
        None => "unavailable"@,
    } + ", but the current AE-5 output is "@ + target
}

/// Checks that the saved graph can be activated on `target_node`;
/// `runtime_support` is what `validate_effects_runtime_support` decided.
pub fn validate_effects_chain_activation(
    config: &EffectsChainConfig,
    target_node: &str,
    runtime_support: Result<(), EffectsChainError>,
    crystalizer: &CrystalizerSettings,
) -> (r: Result<(), EffectsChainError>)
    ensures
        !config.enabled ==> (r matches Err(EffectsChainError::Invalid(x)) && x@ == "apply an Effects profile before activating it"@),
        config.enabled && !(config.target_node is Some && config.target_node->0@ == target_node@) ==> (r matches Err(EffectsChainError::Invalid(x)) && x@ == target_mismatch_text(
            match config.target_node {
                Some(t) => Some(t@),
                None => None,
            },
            target_node@,
        )),
        config.enabled && config.target_node is Some && config.target_node->0@ == target_node@ ==> match runtime_support {
            Err(e) => r == Err::<(), EffectsChainError>(e),
            Ok(()) => match config.profile {
                None => r matches Err(EffectsChainError::Invalid(x)) && x@ == no_profile_text(),
                Some(p) => match profile_problem(p) {
                    Some(m) => r matches Err(EffectsChainError::Invalid(x)) && x@ == m,
                    None => if !p.outfx_enabled {
                        r matches Err(EffectsChainError::Invalid(x)) && x@ == master_off_text()
                    } else {
                        r is Ok
                    },
                },
            },
        },
{
    if !config.enabled {
        return Err(EffectsChainError::Invalid(owned("apply an Effects profile before activating it")));
    }
    let matches_target = match &config.target_node {
        Some(t) => str_eq(t.as_str(), target_node),
        None => false,
    };
    if !matches_target {
        let mut s = owned("the software Effects target is ");
        match &config.target_node {
            Some(t) => push_str(&mut s, t.as_str()),
            None => push_str(&mut s, "unavailable"),
        }
        push_str(&mut s, ", but the current AE-5 output is ");
        push_str(&mut s, target_node);
        return Err(EffectsChainError::Invalid(s));
    }
    runtime_support?;
    config.filter_graph(crystalizer)?;
    Ok(())
}

/// The managed state file's contents.
#[derive(Clone, Debug, Eq, PartialEq)]
pub struct StoredEffectsChain {
    pub schema_version: u32,
    pub target_node: String,
    pub profile: EffectsProfileEntry,
}

/// The message for a state file that AE-5 Control did not write.
pub open spec fn foreign_config_text(path: Seq<char>) -> Seq<char> {
    path + " exists but is not managed by AE-5 Control"@
}

/// The error for a state file that AE-5 Control did not write.
pub fn foreign_config(path: &str) -> (r: EffectsChainError)
    ensures
        r == EffectsChainError::Io(r->Io_0) && r->Io_0@ == foreign_config_text(path@),
{
    let mut s = owned(path);
    push_str(&mut s, " exists but is not managed by AE-5 Control");
    EffectsChainError::Io(s)
}

/// The saved state at `path`, from the parsed state file (`None` when the
/// file does not exist).  A file that does not parse is foreign; the
/// application reports it with `foreign_config`.
pub fn effects_chain_config(path: &str, stored: Option<StoredEffectsChain>) -> (r: Result<EffectsChainConfig, EffectsChainError>)
    ensures
        stored is None ==> (r matches Ok(c) && c.path@ == path@ && !c.enabled && c.target_node is None && c.profile is None),
        stored matches Some(st) ==> {
            if st.schema_version != CONFIG_SCHEMA_VERSION {
                r matches Err(EffectsChainError::Io(x)) && x@ == foreign_config_text(path@)
            } else if !is_valid_target_node(st.target_node@) {
                r matches Err(EffectsChainError::Invalid(x)) && x@ == bad_target_text(st.target_node@)
            } else if profile_problem(st.profile) is Some {
                r matches Err(EffectsChainError::Invalid(x)) && x@ == profile_problem(st.profile)->0
            } else if !st.profile.outfx_enabled {
                r matches Err(EffectsChainError::Io(x)) && x@ == foreign_config_text(path@)
            } else {
                r matches Ok(c) && c.path@ == path@ && c.enabled && c.target_node == Some(st.target_node) && c.profile == Some(st.profile)
            }
        },
{
    match stored {
        None => Ok(EffectsChainConfig { path: owned(path), enabled: false, target_node: None, profile: None }),
        Some(stored) => {
            if stored.schema_version != CONFIG_SCHEMA_VERSION {
                return Err(foreign_config(path));
            }
            validate_target_node(stored.target_node.as_str())?;
            validate_profile(&stored.profile)?;
            if !stored.profile.outfx_enabled {
                return Err(foreign_config(path));
            }
            Ok(EffectsChainConfig {
                path: owned(path),
                enabled: true,
                target_node: Some(stored.target_node),
                profile: Some(stored.profile),
            })
        },
    }
}

/// What to do to the managed state file.
#[derive(Clone, Copy, Debug, PartialEq, Eq, Structural)]
pub enum EffectsChainAction {
    /// Leave the file as it is: the request is already in effect.
    Keep,
    /// Remove the file.
    Remove,
    /// Create the file, which must not exist yet.
    Create,
    /// Replace the file atomically.
    Replace,
}

/// What disabling does to a saved state.
pub open spec fn disable_action(current: EffectsChainConfig) -> EffectsChainAction {
    if current.enabled {
        EffectsChainAction::Remove
    } else {
        EffectsChainAction::Keep
    }
}

/// Decides what disabling the software Effects does to the saved state.
pub fn disable_effects_chain(current: &EffectsChainConfig) -> (r: EffectsChainAction)
    ensures
        r == disable_action(*current),
{
    if current.enabled {
        EffectsChainAction::Remove
    } else {
        EffectsChainAction::Keep
    }
}

/// The reason enabling `p` on `target` is refused, if it is.
pub open spec fn enable_problem(p: EffectsProfileEntry, target: Seq<char>) -> Option<Seq<char>> {
    if profile_problem(p) is Some {
        profile_problem(p)
    } else if !p.outfx_enabled {
        Some("the Effects master is disabled; disable the live chain instead"@)
    } else if !is_valid_target_node(target) {
        Some(bad_target_text(target))
    } else {
        None
    }
}

/// The saved state already applies `p` on `target`.
pub open spec fn already_applied(current: EffectsChainConfig, p: EffectsProfileEntry, target: Seq<char>) -> bool {
    current.enabled && current.target_node is Some && current.target_node->0@ == target
        && current.profile is Some && effects_profile_view(current.profile->0) == effects_profile_view(p)
}

/// What enabling `p` on `target` does to a saved state, when it is allowed.
pub open spec fn enable_action(current: EffectsChainConfig, p: EffectsProfileEntry, target: Seq<char>) -> EffectsChainAction {
    if already_applied(current, p, target) {
        EffectsChainAction::Keep
    } else if current.enabled {
        EffectsChainAction::Replace
    } else {
        EffectsChainAction::Create
    }
}

/// Decides what enabling the software Effects with `profile` on
/// `target_node` does to the saved state.
pub fn enable_effects_chain(current: &EffectsChainConfig, profile: &EffectsProfileEntry, target_node: &str) -> (r: Result<EffectsChainAction, EffectsChainError>)
    ensures
        match enable_problem(*profile, target_node@) {
            Some(m) => r matches Err(EffectsChainError::Invalid(x)) && x@ == m,
            None => r == Ok::<EffectsChainAction, EffectsChainError>(enable_action(*current, *profile, target_node@)),
        },
{
    validate_profile(profile)?;
    if !profile.outfx_enabled {
        return Err(EffectsChainError::Invalid(owned("the Effects master is disabled; disable the live chain instead")));
    }
    validate_target_node(target_node)?;
    let same = current.enabled && match (&current.target_node, &current.profile) {
        (Some(t), Some(p)) => str_eq(t.as_str(), target_node) && same_effects_profile(p, profile),
        _ => false,
    };
    if same {
        Ok(EffectsChainAction::Keep)
    } else if current.enabled {
        Ok(EffectsChainAction::Replace)
    } else {
        Ok(EffectsChainAction::Create)
    }
}

/// What restoring a saved state asks for.
#[derive(Clone, Debug, Eq, PartialEq)]
pub enum EffectsChainRequest {
    Disable,
    Enable { profile: EffectsProfileEntry, target_node: String },
}

/// Decides how to restore `config` into the state file at `path`.
pub fn restore_effects_chain_config(config: &EffectsChainConfig, path: &str) -> (r: Result<EffectsChainRequest, EffectsChainError>)
    ensures
        config.path@ != path@ ==> (r matches Err(EffectsChainError::Invalid(x)) && x@ == "cannot restore software Effects state from "@ + config.path@ + " into "@ + path@),
        config.path@ == path@ && !config.enabled ==> r == Ok::<EffectsChainRequest, EffectsChainError>(EffectsChainRequest::Disable),
        config.path@ == path@ && config.enabled && config.profile is Some && config.target_node is Some ==> r == Ok::<EffectsChainRequest, EffectsChainError>(EffectsChainRequest::Enable {
            profile: config.profile->0,
            target_node: config.target_node->0,
        }),
        config.path@ == path@ && config.enabled && !(config.profile is Some && config.target_node is Some) ==> (r matches Err(EffectsChainError::Invalid(x)) && x@ == "enabled software Effects state is incomplete"@),
{
    if !str_eq(config.path.as_str(), path) {
        let mut s = owned("cannot restore software Effects state from ");
        push_str(&mut s, config.path.as_str());
        push_str(&mut s, " into ");
        push_str(&mut s, path);
        return Err(EffectsChainError::Invalid(s));
    }
    if !config.enabled {
        return Ok(EffectsChainRequest::Disable);
    }
    match (&config.profile, &config.target_node) {
        (Some(profile), Some(target)) => Ok(EffectsChainRequest::Enable {
            profile: profile.clone(),
            target_node: target.clone(),
        }),
        _ => Err(EffectsChainError::Invalid(owned("enabled software Effects state is incomplete"))),
    }
}

/// The saved state after `p` was applied on `target`.
pub open spec fn applied_state(current: EffectsChainConfig, p: EffectsProfileEntry, target: String) -> EffectsChainConfig {
    EffectsChainConfig { path: current.path, enabled: true, target_node: Some(target), profile: Some(p) }
}

/// Applying the same profile twice writes once: once a profile is applied,
/// applying it again keeps the file; disabling then removes it, and
/// disabling again keeps the file.
pub proof fn lemma_enable_is_idempotent(current: EffectsChainConfig, p: EffectsProfileEntry, target: String)
    requires
        enable_problem(p, target@) is None,
    ensures
        enable_action(applied_state(current, p, target), p, target@) == EffectsChainAction::Keep,
        disable_action(applied_state(current, p, target)) == EffectsChainAction::Remove,
        disable_action(EffectsChainConfig { enabled: false, target_node: None, profile: None, ..current }) == EffectsChainAction::Keep,
{
}

/// The state file a restore request leaves: none when it disables, else
/// the current schema with the request's target and profile.
pub open spec fn stored_after(req: EffectsChainRequest) -> Option<StoredEffectsChain> {
    match req {
        EffectsChainRequest::Disable => None,
        EffectsChainRequest::Enable { profile, target_node } => Some(
            StoredEffectsChain { schema_version: CONFIG_SCHEMA_VERSION, target_node, profile },
        ),
    }
}

/// Restoring a saved state re-creates it: a state file that reads back as
/// an enabled state asks, when restored, to enable exactly its profile on
/// exactly its target; that request is always accepted, and applying it
/// leaves the same state as was read.
pub proof fn lemma_restore_recreates_saved_state(current: EffectsChainConfig, st: StoredEffectsChain)
    requires
        st.schema_version == CONFIG_SCHEMA_VERSION,
        is_valid_target_node(st.target_node@),
        profile_problem(st.profile) is None,
        st.profile.outfx_enabled,
    ensures
        enable_problem(st.profile, st.target_node@) is None,
        applied_state(current, st.profile, st.target_node) == (EffectsChainConfig {
            path: current.path,
            enabled: true,
            target_node: Some(st.target_node),
            profile: Some(st.profile),
        }),
        already_applied(applied_state(current, st.profile, st.target_node), st.profile, st.target_node@),
        enable_action(applied_state(current, st.profile, st.target_node), st.profile, st.target_node@)
            == EffectsChainAction::Keep,
        stored_after(EffectsChainRequest::Enable { profile: st.profile, target_node: st.target_node }) == Some(st),
{
}

/// Restoring a state that was read as disabled leaves no state file, and
/// disabling it again keeps it that way.
pub proof fn lemma_restore_of_disabled_state(current: EffectsChainConfig)
    requires
        !current.enabled,
    ensures
        stored_after(EffectsChainRequest::Disable) is None,
        disable_action(current) == EffectsChainAction::Keep,
{
}

} // verus!
