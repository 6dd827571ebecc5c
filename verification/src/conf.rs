//! Runtime configuration parameters.
//!
//! These are loaded from `config.json` under the assets directory when the
//! program starts and saved when it closes. Every default below is pinned by a
//! contract so that a freshly created configuration is known exactly.

use vstd::prelude::*;
use crate::{DMX_ADDRS_PER_SPOT, DMX_ADDRS_PER_WASH, SPOT_COUNT, WASH_COUNT};

verus! {

/// Runtime configuration parameters.
#[derive(Clone, Debug, PartialEq)]
pub struct Config {
    /// Whether or not OSC is enabled.
    pub osc_on: bool,
    /// Whether or not DMX is enabled.
    pub dmx_on: bool,
    /// Whether or not MIDI is enabled.
    pub midi_on: bool,
    /// A map from the layout index of each wash to their starting DMX address.
    pub wash_dmx_addrs: Vec<u8>,
    /// A map from the index of each spotlight to their starting DMX address.
    pub spot_dmx_addrs: Vec<u8>,
    /// The universe on which wash/spot data is sent.
    pub wash_spot_universe: u16,
    /// The starting universe from which LED data is sent.
    pub led_start_universe: u16,
    /// The OSC address currently shown in the GUI textbox.
    pub osc_addr_textbox_string: String,
    /// The shader names presented by the GUI selection lists.
    pub shader_names: Vec<String>,
    /// The solid colour names presented by the GUI selection lists.
    pub solid_colour_names: Vec<String>,
    /// The blend mode names presented by the GUI selection lists.
    pub blend_mode_names: Vec<String>,
    /// The stored presets.
    pub presets: Presets,
}

/// The collection of stored presets along with the current selection.
#[derive(Clone, Debug, PartialEq)]
pub struct Presets {
    pub selected_preset_name: String,
    pub selected_preset_idx: Option<usize>,
    pub presets: Vec<Preset>,
}

/// A single named preset.
#[derive(Clone, Debug, PartialEq)]
pub struct Preset {
    pub state: State,
    pub name: String,
}

/// The part of a preset's state that selects shaders, colours and blending.
#[derive(Clone, Debug, PartialEq)]
pub struct State {
    pub led_shader_idx_left: Option<usize>,
    pub led_shader_idx_right: Option<usize>,
    pub solid_colour_idx: Option<usize>,
    pub blend_mode_idx: Option<usize>,
}

/// The path to the configuration file within the assets directory.
pub fn path(assets: &str) -> (p: String)
    ensures
        p@ == assets@ + "/config.json"@,
{
    let mut p = assets.to_owned();
    p.append("/config.json");
    p
}

/// The default starting DMX address for each wash light: addresses are packed
/// one wash after another, each taking `DMX_ADDRS_PER_WASH` channels.
pub fn wash_dmx_addrs() -> (addrs: Vec<u8>)
    ensures
        addrs@.len() == WASH_COUNT,
        forall|i: int| 0 <= i < addrs@.len() ==> addrs@[i] == i * DMX_ADDRS_PER_WASH,
{
    let mut addrs: Vec<u8> = Vec::new();
    let mut i: usize = 0;
    while i < WASH_COUNT
        invariant
            i <= WASH_COUNT,
            addrs@.len() == i,
            forall|j: int| 0 <= j < i ==> addrs@[j] == j * DMX_ADDRS_PER_WASH,
        decreases WASH_COUNT - i,
    {
        addrs.push((i as u8) * DMX_ADDRS_PER_WASH);
        i = i + 1;
    }
    addrs
}

/// The default starting DMX address for each spot light: the spots are packed
/// directly after the block of wash addresses.
pub fn spot_dmx_addrs() -> (addrs: Vec<u8>)
    ensures
        addrs@.len() == SPOT_COUNT,
        forall|i: int| 0 <= i < addrs@.len() ==> addrs@[i]
            == WASH_COUNT * DMX_ADDRS_PER_WASH + i * DMX_ADDRS_PER_SPOT,
{
    let start_addr: u8 = (WASH_COUNT as u8) * DMX_ADDRS_PER_WASH;
    let mut addrs: Vec<u8> = Vec::new();
    let mut i: usize = 0;
    while i < SPOT_COUNT
        invariant
            i <= SPOT_COUNT,
            addrs@.len() == i,
            start_addr == WASH_COUNT * DMX_ADDRS_PER_WASH,
            forall|j: int| 0 <= j < i ==> addrs@[j]
                == WASH_COUNT * DMX_ADDRS_PER_WASH + j * DMX_ADDRS_PER_SPOT,
        decreases SPOT_COUNT - i,
    {
        addrs.push(start_addr + (i as u8) * DMX_ADDRS_PER_SPOT);
        i = i + 1;
    }
    addrs
}

/// The default universe to which wash and spot data is sent.
pub fn wash_spot_universe() -> (u: u16)
    ensures
        u == 1,
{
    1
}

/// The default universe from which LED data is sent: the one right after the
/// wash/spot universe.
pub fn led_start_universe() -> (u: u16)
    ensures
        u == 2,
{
    wash_spot_universe() + 1
}

/// The default OSC address text shown in the GUI.
pub fn osc_addr_textbox_string() -> (s: String)
    ensures
        s@ == "127.0.0.1:8000"@,
{
    "127.0.0.1:8000".to_owned()
}

/// The list of shader names offered by the GUI, in presentation order.
pub fn shader_names() -> (names: Vec<String>)
    ensures
        names@.len() == 21,
        names@[0]@ == "BwGradient"@,
        names@[1]@ == "EscherTilings"@,
        names@[2]@ == "JustRelax"@,
        names@[3]@ == "LineGradient"@,
        names@[4]@ == "Metafall"@,
        names@[5]@ == "ParticleZoom"@,
        names@[6]@ == "RadialLines"@,
        names@[7]@ == "SquareTunnel"@,
        names@[8]@ == "AcidGradient"@,
        names@[9]@ == "BlinkyCircles"@,
        names@[10]@ == "ColourGrid"@,
        names@[11]@ == "GilmoreAcid"@,
        names@[12]@ == "LifeLedWall"@,
        names@[13]@ == "SatisSpiraling"@,
        names@[14]@ == "SpiralIntersect"@,
        names@[15]@ == "ThePulse"@,
        names@[16]@ == "TunnelProjection"@,
        names@[17]@ == "VertColourGradient"@,
        names@[18]@ == "SolidHsvColour"@,
        names@[19]@ == "SolidRgbColour"@,
        names@[20]@ == "ColourPalettes"@,
{
    let mut names: Vec<String> = Vec::new();
    names.push("BwGradient".to_owned());
    names.push("EscherTilings".to_owned());
    names.push("JustRelax".to_owned());
    names.push("LineGradient".to_owned());
    names.push("Metafall".to_owned());
    names.push("ParticleZoom".to_owned());
    names.push("RadialLines".to_owned());
    names.push("SquareTunnel".to_owned());
    names.push("AcidGradient".to_owned());
    names.push("BlinkyCircles".to_owned());
    names.push("ColourGrid".to_owned());
    names.push("GilmoreAcid".to_owned());
    names.push("LifeLedWall".to_owned());
    names.push("SatisSpiraling".to_owned());
    names.push("SpiralIntersect".to_owned());
    names.push("ThePulse".to_owned());
    names.push("TunnelProjection".to_owned());
    names.push("VertColourGradient".to_owned());
    names.push("SolidHsvColour".to_owned());
    names.push("SolidRgbColour".to_owned());
    names.push("ColourPalettes".to_owned());
    names
}

/// The list of solid colour shader names offered by the GUI.
pub fn solid_colour_names() -> (names: Vec<String>)
    ensures
        names@.len() == 3,
        names@[0]@ == "SolidHsvColour"@,
        names@[1]@ == "SolidRgbColour"@,
        names@[2]@ == "ColourPalettes"@,
{
    let mut names: Vec<String> = Vec::new();
    names.push("SolidHsvColour".to_owned());
    names.push("SolidRgbColour".to_owned());
    names.push("ColourPalettes".to_owned());
    names
}

/// The list of blend mode names offered by the GUI.
pub fn blend_mode_names() -> (names: Vec<String>)
    ensures
        names@.len() == 7,
        names@[0]@ == "Add"@,
        names@[1]@ == "Subtract"@,
        names@[2]@ == "Multiply"@,
        names@[3]@ == "Average"@,
        names@[4]@ == "Difference"@,
        names@[5]@ == "Negation"@,
        names@[6]@ == "Exclusion"@,
{
    let mut names: Vec<String> = Vec::new();
    names.push("Add".to_owned());
    names.push("Subtract".to_owned());
    names.push("Multiply".to_owned());
    names.push("Average".to_owned());
    names.push("Difference".to_owned());
    names.push("Negation".to_owned());
    names.push("Exclusion".to_owned());
    names
}

/// The preset name selected before any other has been chosen.
pub fn selected_preset_name() -> (s: String)
    ensures
        s@ == "Empty"@,
{
    "Empty".to_owned()
}

/// The preset index selected before any other has been chosen.
pub fn selected_preset_idx() -> (i: Option<usize>)
    ensures
        i == Some(0usize),
{
    Some(0)
}

/// The default preset list: a single freshly initialised preset.
pub fn presets() -> (ps: Vec<Preset>)
    ensures
        ps@.len() == 1,
        ps@[0].state == State::default_spec(),
        ps@[0].name@ == "init"@,
{
    let mut ps: Vec<Preset> = Vec::new();
    ps.push(Preset::default());
    ps
}

/// The shader initially selected for the left LED channel.
pub fn led_shader_idx_left() -> (i: Option<usize>)
    ensures
        i == Some(15usize),
{
    Some(15)
}

/// The shader initially selected for the right LED channel.
pub fn led_shader_idx_right() -> (i: Option<usize>)
    ensures
        i == Some(0usize),
{
    Some(0)
}

/// The solid colour initially selected.
pub fn solid_colour_idx() -> (i: Option<usize>)
    ensures
        i == Some(0usize),
{
    Some(0)
}

/// The blend mode initially selected.
pub fn blend_mode_idx() -> (i: Option<usize>)
    ensures
        i == Some(0usize),
{
    Some(0)
}

impl State {
    /// The value produced by `State::default`.
    pub open spec fn default_spec() -> State {
        State {
            led_shader_idx_left: Some(15usize),
            led_shader_idx_right: Some(0usize),
            solid_colour_idx: Some(0usize),
            blend_mode_idx: Some(0usize),
        }
    }
}

impl Default for State {
    fn default() -> (s: Self)
        ensures
            s == State::default_spec(),
    {
        State {
            led_shader_idx_left: led_shader_idx_left(),
            led_shader_idx_right: led_shader_idx_right(),
            solid_colour_idx: solid_colour_idx(),
            blend_mode_idx: blend_mode_idx(),
        }
    }
}

impl Default for Preset {
    fn default() -> (p: Self)
        ensures
            p.state == State::default_spec(),
            p.name@ == "init"@,
    {
        Preset { state: State::default(), name: "init".to_owned() }
    }
}

impl Default for Presets {
    fn default() -> (p: Self)
        ensures
            p.selected_preset_name@ == "Empty"@,
            p.selected_preset_idx == Some(0usize),
            p.presets@.len() == 1,
            p.presets@[0].state == State::default_spec(),
            p.presets@[0].name@ == "init"@,
    {
        Presets {
            selected_preset_name: selected_preset_name(),
            selected_preset_idx: selected_preset_idx(),
            presets: presets(),
        }
    }
}

impl Default for Config {
    fn default() -> (c: Self)
        ensures
            !c.osc_on,
            !c.dmx_on,
            !c.midi_on,
            c.wash_dmx_addrs@.len() == WASH_COUNT,
            forall|i: int| 0 <= i < c.wash_dmx_addrs@.len()
                ==> c.wash_dmx_addrs@[i] == i * DMX_ADDRS_PER_WASH,
            c.spot_dmx_addrs@.len() == SPOT_COUNT,
            forall|i: int| 0 <= i < c.spot_dmx_addrs@.len() ==> c.spot_dmx_addrs@[i]
                == WASH_COUNT * DMX_ADDRS_PER_WASH + i * DMX_ADDRS_PER_SPOT,
            c.wash_spot_universe == 1,
            c.led_start_universe == 2,
            c.osc_addr_textbox_string@ == "127.0.0.1:8000"@,
            c.shader_names@.len() == 21,
            c.solid_colour_names@.len() == 3,
            c.blend_mode_names@.len() == 7,
            c.presets.selected_preset_idx == Some(0usize),
            c.presets.presets@.len() == 1,
    {
        Config {
            osc_on: false,
            dmx_on: false,
            midi_on: false,
            wash_dmx_addrs: wash_dmx_addrs(),
            spot_dmx_addrs: spot_dmx_addrs(),
            wash_spot_universe: wash_spot_universe(),
            led_start_universe: led_start_universe(),
            osc_addr_textbox_string: osc_addr_textbox_string(),
            shader_names: shader_names(),
            solid_colour_names: solid_colour_names(),
            blend_mode_names: blend_mode_names(),
            presets: Presets::default(),
        }
    }
}

} // verus!
