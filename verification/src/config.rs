//! The settings of the indicator, their defaults, and one reader per setting.

use vstd::prelude::*;
use vstd::string::*;
use crate::color::{color_of, parse_color_bytes};
use crate::engine::IndicatorConfig;

verus! {

/// Orange, for the primary mode.
pub const DEFAULT_COLOR_CN: u32 = 0xA0FF7800;

/// Blue, for the alternate mode.
pub const DEFAULT_COLOR_EN: u32 = 0x300078FF;

pub const DEFAULT_STATE_INTERVAL_MS: u64 = 100;

pub const DEFAULT_TRACK_INTERVAL_MS: u64 = 10;

pub const DEFAULT_SIZE: i32 = 8;

pub const DEFAULT_CARET_OFFSET_X: i32 = 0;

pub const DEFAULT_CARET_OFFSET_Y: i32 = 0;

pub const DEFAULT_MOUSE_OFFSET_X: i32 = 2;

pub const DEFAULT_MOUSE_OFFSET_Y: i32 = 18;

/// The I-beam and the arrow, as the pointer sensor numbers them.
pub const DEFAULT_CURSOR_TEXT: u32 = 32513;

pub const DEFAULT_CURSOR_ARROW: u32 = 32512;

/// Every setting, flat. `cn` names the primary input mode, `en` the
/// alternate one.
#[derive(Debug, PartialEq, Eq)]
pub struct Config {
    pub poll_state_interval_ms: u64,
    pub poll_track_interval_ms: u64,
    pub tray_enable: bool,
    pub caret_enable: bool,
    pub caret_color_cn: u32,
    pub caret_color_en: u32,
    pub caret_size: i32,
    pub caret_offset_x: i32,
    pub caret_offset_y: i32,
    pub caret_show_en: bool,
    pub mouse_enable: bool,
    pub mouse_color_cn: u32,
    pub mouse_color_en: u32,
    pub mouse_size: i32,
    pub mouse_offset_x: i32,
    pub mouse_offset_y: i32,
    pub mouse_show_en: bool,
    /// Pointer shapes under which the mouse marker shows. The identifiers are
    /// the sensor's; nothing here reads a meaning into them.
    pub mouse_target_cursors: Vec<u32>,
}

/// The settings as contracts see them.
pub struct ConfigView {
    pub poll_state_interval_ms: u64,
    pub poll_track_interval_ms: u64,
    pub tray_enable: bool,
    pub caret_enable: bool,
    pub caret_color_cn: u32,
    pub caret_color_en: u32,
    pub caret_size: i32,
    pub caret_offset_x: i32,
    pub caret_offset_y: i32,
    pub caret_show_en: bool,
    pub mouse_enable: bool,
    pub mouse_color_cn: u32,
    pub mouse_color_en: u32,
    pub mouse_size: i32,
    pub mouse_offset_x: i32,
    pub mouse_offset_y: i32,
    pub mouse_show_en: bool,
    pub mouse_target_cursors: Seq<u32>,
}

impl ConfigView {
    /// The settings of a configuration that sets nothing.
    pub open spec fn defaults() -> ConfigView {
        ConfigView {
            poll_state_interval_ms: DEFAULT_STATE_INTERVAL_MS,
            poll_track_interval_ms: DEFAULT_TRACK_INTERVAL_MS,
            tray_enable: true,
            caret_enable: true,
            caret_color_cn: DEFAULT_COLOR_CN,
            caret_color_en: DEFAULT_COLOR_EN,
            caret_size: DEFAULT_SIZE,
            caret_offset_x: DEFAULT_CARET_OFFSET_X,
            caret_offset_y: DEFAULT_CARET_OFFSET_Y,
            caret_show_en: true,
            mouse_enable: true,
            mouse_color_cn: DEFAULT_COLOR_CN,
            mouse_color_en: DEFAULT_COLOR_EN,
            mouse_size: DEFAULT_SIZE,
            mouse_offset_x: DEFAULT_MOUSE_OFFSET_X,
            mouse_offset_y: DEFAULT_MOUSE_OFFSET_Y,
            mouse_show_en: true,
            mouse_target_cursors: seq![DEFAULT_CURSOR_TEXT, DEFAULT_CURSOR_ARROW],
        }
    }
}

impl View for Config {
    type V = ConfigView;

    open spec fn view(&self) -> ConfigView {
        ConfigView {
            poll_state_interval_ms: self.poll_state_interval_ms,
            poll_track_interval_ms: self.poll_track_interval_ms,
            tray_enable: self.tray_enable,
            caret_enable: self.caret_enable,
            caret_color_cn: self.caret_color_cn,
            caret_color_en: self.caret_color_en,
            caret_size: self.caret_size,
            caret_offset_x: self.caret_offset_x,
            caret_offset_y: self.caret_offset_y,
            caret_show_en: self.caret_show_en,
            mouse_enable: self.mouse_enable,
            mouse_color_cn: self.mouse_color_cn,
            mouse_color_en: self.mouse_color_en,
            mouse_size: self.mouse_size,
            mouse_offset_x: self.mouse_offset_x,
            mouse_offset_y: self.mouse_offset_y,
            mouse_show_en: self.mouse_show_en,
            mouse_target_cursors: self.mouse_target_cursors@,
        }
    }
}

impl Config {
    /// The settings of the caret marker as the engine takes them.
    pub open spec fn caret_indicator_spec(&self) -> IndicatorConfig {
        IndicatorConfig {
            enabled: self.caret_enable,
            color_primary: self.caret_color_cn,
            color_alternate: self.caret_color_en,
            size: self.caret_size,
            offset_x: self.caret_offset_x,
            offset_y: self.caret_offset_y,
            show_in_alternate_mode: self.caret_show_en,
        }
    }

    /// The settings of the mouse marker as the engine takes them.
    pub open spec fn mouse_indicator_spec(&self) -> IndicatorConfig {
        IndicatorConfig {
            enabled: self.mouse_enable,
            color_primary: self.mouse_color_cn,
            color_alternate: self.mouse_color_en,
            size: self.mouse_size,
            offset_x: self.mouse_offset_x,
            offset_y: self.mouse_offset_y,
            show_in_alternate_mode: self.mouse_show_en,
        }
    }

    #[verifier::when_used_as_spec(caret_indicator_spec)]
    pub fn caret_indicator(&self) -> (indicator: IndicatorConfig)
        ensures
            indicator == self.caret_indicator_spec(),
    {
        IndicatorConfig {
            enabled: self.caret_enable,
            color_primary: self.caret_color_cn,
            color_alternate: self.caret_color_en,
            size: self.caret_size,
            offset_x: self.caret_offset_x,
            offset_y: self.caret_offset_y,
            show_in_alternate_mode: self.caret_show_en,
        }
    }

    #[verifier::when_used_as_spec(mouse_indicator_spec)]
    pub fn mouse_indicator(&self) -> (indicator: IndicatorConfig)
        ensures
            indicator == self.mouse_indicator_spec(),
    {
        IndicatorConfig {
            enabled: self.mouse_enable,
            color_primary: self.mouse_color_cn,
            color_alternate: self.mouse_color_en,
            size: self.mouse_size,
            offset_x: self.mouse_offset_x,
            offset_y: self.mouse_offset_y,
            show_in_alternate_mode: self.mouse_show_en,
        }
    }
}

impl Default for Config {
    fn default() -> (config: Config)
        ensures
            config@ == ConfigView::defaults(),
    {
        let mut cursors: Vec<u32> = Vec::new();
        cursors.push(DEFAULT_CURSOR_TEXT);
        cursors.push(DEFAULT_CURSOR_ARROW);
        assert(cursors@ =~= seq![DEFAULT_CURSOR_TEXT, DEFAULT_CURSOR_ARROW]);
        Config {
            poll_state_interval_ms: DEFAULT_STATE_INTERVAL_MS,
            poll_track_interval_ms: DEFAULT_TRACK_INTERVAL_MS,
            tray_enable: true,
            caret_enable: true,
            caret_color_cn: DEFAULT_COLOR_CN,
            caret_color_en: DEFAULT_COLOR_EN,
            caret_size: DEFAULT_SIZE,
            caret_offset_x: DEFAULT_CARET_OFFSET_X,
            caret_offset_y: DEFAULT_CARET_OFFSET_Y,
            caret_show_en: true,
            mouse_enable: true,
            mouse_color_cn: DEFAULT_COLOR_CN,
            mouse_color_en: DEFAULT_COLOR_EN,
            mouse_size: DEFAULT_SIZE,
            mouse_offset_x: DEFAULT_MOUSE_OFFSET_X,
            mouse_offset_y: DEFAULT_MOUSE_OFFSET_Y,
            mouse_show_en: true,
            mouse_target_cursors: cursors,
        }
    }
}

/// Text that can be read as a colour.
pub trait ConfigParseExt {
    /// The UTF-8 bytes of the text.
    spec fn text_bytes(&self) -> Seq<u8>;

    fn parse_color(&self) -> (color: u32)
        ensures
            color == color_of(self.text_bytes()),
    ;
}

impl ConfigParseExt for str {
    open spec fn text_bytes(&self) -> Seq<u8> {
        self.spec_bytes()
    }

    fn parse_color(&self) -> (color: u32) {
        parse_color_bytes(self.as_bytes())
    }
}

/// Reads a colour written as `#RRGGBB` or `#RRGGBBAA`, with or without double
/// quotes and white space around it.
pub fn parse_color(s: &str) -> (color: u32)
    ensures
        color == color_of(s.spec_bytes()),
{
    s.parse_color()
}

pub fn state_poll_interval_ms(config: &Config) -> (value: u64)
    ensures
        value == config.poll_state_interval_ms,
{
    config.poll_state_interval_ms
}

pub fn track_poll_interval_ms(config: &Config) -> (value: u64)
    ensures
        value == config.poll_track_interval_ms,
{
    config.poll_track_interval_ms
}

pub fn tray_enable(config: &Config) -> (value: bool)
    ensures
        value == config.tray_enable,
{
    config.tray_enable
}

pub fn caret_enable(config: &Config) -> (value: bool)
    ensures
        value == config.caret_enable,
{
    config.caret_enable
}

pub fn caret_color_cn(config: &Config) -> (value: u32)
    ensures
        value == config.caret_color_cn,
{
    config.caret_color_cn
}

pub fn caret_color_en(config: &Config) -> (value: u32)
    ensures
        value == config.caret_color_en,
{
    config.caret_color_en
}

pub fn caret_size(config: &Config) -> (value: i32)
    ensures
        value == config.caret_size,
{
    config.caret_size
}

pub fn caret_offset_x(config: &Config) -> (value: i32)
    ensures
        value == config.caret_offset_x,
{
    config.caret_offset_x
}

pub fn caret_offset_y(config: &Config) -> (value: i32)
    ensures
        value == config.caret_offset_y,
{
    config.caret_offset_y
}

pub fn caret_show_en(config: &Config) -> (value: bool)
    ensures
        value == config.caret_show_en,
{
    config.caret_show_en
}

pub fn mouse_enable(config: &Config) -> (value: bool)
    ensures
        value == config.mouse_enable,
{
    config.mouse_enable
}

pub fn mouse_color_cn(config: &Config) -> (value: u32)
    ensures
        value == config.mouse_color_cn,
{
    config.mouse_color_cn
}

pub fn mouse_color_en(config: &Config) -> (value: u32)
    ensures
        value == config.mouse_color_en,
{
    config.mouse_color_en
}

pub fn mouse_size(config: &Config) -> (value: i32)
    ensures
        value == config.mouse_size,
{
    config.mouse_size
}

pub fn mouse_offset_x(config: &Config) -> (value: i32)
    ensures
        value == config.mouse_offset_x,
{
    config.mouse_offset_x
}

pub fn mouse_offset_y(config: &Config) -> (value: i32)
    ensures
        value == config.mouse_offset_y,
{
    config.mouse_offset_y
}

pub fn mouse_show_en(config: &Config) -> (value: bool)
    ensures
        value == config.mouse_show_en,
{
    config.mouse_show_en
}

pub fn mouse_target_cursors(config: &Config) -> (value: &[u32])
    ensures
        value@ == config.mouse_target_cursors@,
{
    config.mouse_target_cursors.as_slice()
}

} // verus!
