//! Exact values of the default runtime configuration.

use cohen_gig::conf;
use cohen_gig::conf::{Config, Preset, Presets, State};
use cohen_gig::{DMX_ADDRS_PER_WASH, SPOT_COUNT, WASH_COUNT};

#[test]
fn config_path_is_under_assets() {
    assert_eq!(conf::path("assets"), "assets/config.json");
    assert_eq!(conf::path("/tmp/show"), "/tmp/show/config.json");
}

#[test]
fn wash_addresses_are_packed_seven_apart() {
    let addrs = conf::wash_dmx_addrs();
    assert_eq!(addrs.len(), WASH_COUNT);
    for (i, a) in addrs.iter().enumerate() {
        assert_eq!(*a, (i as u8) * DMX_ADDRS_PER_WASH);
    }
    assert_eq!(addrs[0], 0);
    assert_eq!(addrs[27], 189);
}

#[test]
fn spot_addresses_follow_the_washes() {
    let addrs = conf::spot_dmx_addrs();
    assert_eq!(addrs.len(), SPOT_COUNT);
    assert_eq!(addrs, vec![196, 197]);
}

#[test]
fn universes_are_adjacent() {
    assert_eq!(conf::wash_spot_universe(), 1);
    assert_eq!(conf::led_start_universe(), 2);
}

#[test]
fn osc_addr_default_is_loopback() {
    assert_eq!(conf::osc_addr_textbox_string(), "127.0.0.1:8000");
}

#[test]
fn shader_name_list_matches_gui_order() {
    let names = conf::shader_names();
    assert_eq!(names.len(), 21);
    assert_eq!(names[0], "BwGradient");
    assert_eq!(names[7], "SquareTunnel");
    assert_eq!(names[8], "AcidGradient");
    assert_eq!(names[17], "VertColourGradient");
    assert_eq!(names[20], "ColourPalettes");
}

#[test]
fn solid_colour_and_blend_mode_name_lists() {
    assert_eq!(
        conf::solid_colour_names(),
        vec!["SolidHsvColour", "SolidRgbColour", "ColourPalettes"]
    );
    assert_eq!(
        conf::blend_mode_names(),
        vec!["Add", "Subtract", "Multiply", "Average", "Difference", "Negation", "Exclusion"]
    );
}

#[test]
fn preset_defaults_select_the_initial_layers() {
    assert_eq!(conf::selected_preset_name(), "Empty");
    assert_eq!(conf::selected_preset_idx(), Some(0));
    assert_eq!(conf::led_shader_idx_left(), Some(15));
    assert_eq!(conf::led_shader_idx_right(), Some(0));
    assert_eq!(conf::solid_colour_idx(), Some(0));
    assert_eq!(conf::blend_mode_idx(), Some(0));
    let ps = conf::presets();
    assert_eq!(ps.len(), 1);
    assert_eq!(ps[0].name, "init");
    assert_eq!(ps[0].state, State::default());
}

#[test]
fn default_config_assembles_all_defaults() {
    let c = Config::default();
    assert!(!c.osc_on && !c.dmx_on && !c.midi_on);
    assert_eq!(c.wash_dmx_addrs, conf::wash_dmx_addrs());
    assert_eq!(c.spot_dmx_addrs, conf::spot_dmx_addrs());
    assert_eq!(c.wash_spot_universe, 1);
    assert_eq!(c.led_start_universe, 2);
    assert_eq!(c.osc_addr_textbox_string, "127.0.0.1:8000");
    assert_eq!(c.shader_names.len(), 21);
    assert_eq!(c.solid_colour_names.len(), 3);
    assert_eq!(c.blend_mode_names.len(), 7);
    assert_eq!(c.presets, Presets::default());
    let p = Preset::default();
    assert_eq!(p.name, "init");
    assert_eq!(p.state.led_shader_idx_left, Some(15));
}
