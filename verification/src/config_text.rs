//! The configuration as text: sections in square brackets, `key = value`
//! lines, `#` comments. Names match without regard to case; a setting that is
//! given twice takes its last value, and a number that cannot be read leaves
//! the default.

use vstd::prelude::*;
use vstd::slice::slice_subrange;
use vstd::string::*;
use crate::color::{color_of, parse_color_bytes};
use crate::config::{
    Config, ConfigView, DEFAULT_CARET_OFFSET_X, DEFAULT_CARET_OFFSET_Y, DEFAULT_MOUSE_OFFSET_X,
    DEFAULT_MOUSE_OFFSET_Y, DEFAULT_SIZE, DEFAULT_STATE_INTERVAL_MS, DEFAULT_TRACK_INTERVAL_MS,
};
use crate::text::{
    comment_start, find_byte, find_comment, index_of, lower_matches, matches_name, parse_signed,
    parse_unsigned, signed_of, trim, trimmed, unsigned_of,
};

verus! {

/// The section that a line stands under.
#[derive(Clone, Copy, Debug, PartialEq, Eq, Structural)]
pub enum Section {
    Poll,
    Tray,
    Caret,
    Mouse,
    /// Before the first header, or under a header that names nothing known.
    Other,
}

/// A setting that both markers have.
#[derive(Clone, Copy, Debug, PartialEq, Eq, Structural)]
pub enum Field {
    Enable,
    ColorCn,
    ColorEn,
    Size,
    OffsetX,
    OffsetY,
    ShowEn,
}

/// One setting of the configuration.
#[derive(Clone, Copy, Debug, PartialEq, Eq, Structural)]
pub enum Setting {
    StateInterval,
    TrackInterval,
    TrayEnable,
    Caret(Field),
    Mouse(Field),
    MouseTargetCursors,
}

pub open spec fn section_of(name: Seq<u8>) -> Section {
    if lower_matches(name, "poll".spec_bytes()) {
        Section::Poll
    } else if lower_matches(name, "tray".spec_bytes()) {
        Section::Tray
    } else if lower_matches(name, "caret".spec_bytes()) {
        Section::Caret
    } else if lower_matches(name, "mouse".spec_bytes()) {
        Section::Mouse
    } else {
        Section::Other
    }
}

pub open spec fn field_of(key: Seq<u8>) -> Option<Field> {
    if lower_matches(key, "enable".spec_bytes()) {
        Some(Field::Enable)
    } else if lower_matches(key, "color_cn".spec_bytes()) {
        Some(Field::ColorCn)
    } else if lower_matches(key, "color_en".spec_bytes()) {
        Some(Field::ColorEn)
    } else if lower_matches(key, "size".spec_bytes()) {
        Some(Field::Size)
    } else if lower_matches(key, "offset_x".spec_bytes()) {
        Some(Field::OffsetX)
    } else if lower_matches(key, "offset_y".spec_bytes()) {
        Some(Field::OffsetY)
    } else if lower_matches(key, "show_en".spec_bytes()) {
        Some(Field::ShowEn)
    } else {
        None
    }
}

/// The setting that `key` names under `section`.
pub open spec fn setting_of(section: Section, key: Seq<u8>) -> Option<Setting> {
    match section {
        Section::Poll => if lower_matches(key, "state_interval_ms".spec_bytes()) {
            Some(Setting::StateInterval)
        } else if lower_matches(key, "track_interval_ms".spec_bytes()) {
            Some(Setting::TrackInterval)
        } else {
            None
        },
        Section::Tray => if lower_matches(key, "enable".spec_bytes()) {
            Some(Setting::TrayEnable)
        } else {
            None
        },
        Section::Caret => match field_of(key) {
            Some(field) => Some(Setting::Caret(field)),
            None => None,
        },
        Section::Mouse => match field_of(key) {
            Some(field) => Some(Setting::Mouse(field)),
            None => if lower_matches(key, "target_cursors".spec_bytes()) {
                Some(Setting::MouseTargetCursors)
            } else {
                None
            },
        },
        Section::Other => None,
    }
}

/// A switch is on where its value is the word `true`, and off otherwise.
pub open spec fn switch_of(value: Seq<u8>) -> bool {
    value == "true".spec_bytes()
}

pub open spec fn interval_of(value: Seq<u8>, default: u64) -> u64 {
    match unsigned_of(value, u64::MAX as nat) {
        Some(number) => number as u64,
        None => default,
    }
}

pub open spec fn length_of(value: Seq<u8>, default: i32) -> i32 {
    match signed_of(value) {
        Some(number) => number as i32,
        None => default,
    }
}

pub open spec fn is_bracket(a: u8) -> bool {
    a == 0x5B || a == 0x5D
}

/// First index at or after `i` that holds no square bracket.
pub open spec fn brackets_end(bytes: Seq<u8>, i: int) -> int
    decreases bytes.len() - i,
{
    if 0 <= i && i < bytes.len() && is_bracket(bytes[i]) {
        brackets_end(bytes, i + 1)
    } else {
        i
    }
}

/// Start of the square brackets that end `bytes[lo..j]`.
pub open spec fn brackets_start(bytes: Seq<u8>, lo: int, j: int) -> int
    decreases j - lo,
{
    if 0 <= lo && lo < j && j <= bytes.len() && is_bracket(bytes[j - 1]) {
        brackets_start(bytes, lo, j - 1)
    } else {
        j
    }
}

/// `bytes` without the square brackets at its two ends.
pub open spec fn unbracketed(bytes: Seq<u8>) -> Seq<u8> {
    let start = brackets_end(bytes, 0);
    bytes.subrange(start, brackets_start(bytes, start, bytes.len() as int))
}

/// The numbers among the items that commas part, from `pos` on. An item that
/// is no 32-bit number is passed over.
pub open spec fn numbers_from(bytes: Seq<u8>, pos: int) -> Seq<u32>
    decreases bytes.len() - pos,
{
    if pos < 0 || pos > bytes.len() {
        seq![]
    } else {
        let end = index_of(bytes, 0x2C, pos);
        let head = match unsigned_of(trimmed(bytes.subrange(pos, end)), u32::MAX as nat) {
            Some(number) => seq![number as u32],
            None => seq![],
        };
        if end < pos || end >= bytes.len() {
            head
        } else {
            head + numbers_from(bytes, end + 1)
        }
    }
}

/// The pointer shapes that a list such as `[32513, 32512]` names.
pub open spec fn cursors_of(value: Seq<u8>) -> Seq<u32> {
    numbers_from(unbracketed(value), 0)
}

pub open spec fn with_field(
    caret: bool,
    config: ConfigView,
    field: Field,
    value: Seq<u8>,
) -> ConfigView {
    match field {
        Field::Enable => if caret {
            ConfigView { caret_enable: switch_of(value), ..config }
        } else {
            ConfigView { mouse_enable: switch_of(value), ..config }
        },
        Field::ColorCn => if caret {
            ConfigView { caret_color_cn: color_of(value), ..config }
        } else {
            ConfigView { mouse_color_cn: color_of(value), ..config }
        },
        Field::ColorEn => if caret {
            ConfigView { caret_color_en: color_of(value), ..config }
        } else {
            ConfigView { mouse_color_en: color_of(value), ..config }
        },
        Field::Size => if caret {
            ConfigView { caret_size: length_of(value, DEFAULT_SIZE), ..config }
        } else {
            ConfigView { mouse_size: length_of(value, DEFAULT_SIZE), ..config }
        },
        Field::OffsetX => if caret {
            ConfigView { caret_offset_x: length_of(value, DEFAULT_CARET_OFFSET_X), ..config }
        } else {
            ConfigView { mouse_offset_x: length_of(value, DEFAULT_MOUSE_OFFSET_X), ..config }
        },
        Field::OffsetY => if caret {
            ConfigView { caret_offset_y: length_of(value, DEFAULT_CARET_OFFSET_Y), ..config }
        } else {
            ConfigView { mouse_offset_y: length_of(value, DEFAULT_MOUSE_OFFSET_Y), ..config }
        },
        Field::ShowEn => if caret {
            ConfigView { caret_show_en: switch_of(value), ..config }
        } else {
            ConfigView { mouse_show_en: switch_of(value), ..config }
        },
    }
}

/// The settings after `setting` was given as `value`.
pub open spec fn with_setting(config: ConfigView, setting: Setting, value: Seq<u8>) -> ConfigView {
    match setting {
        Setting::StateInterval => ConfigView {
            poll_state_interval_ms: interval_of(value, DEFAULT_STATE_INTERVAL_MS),
            ..config
        },
        Setting::TrackInterval => ConfigView {
            poll_track_interval_ms: interval_of(value, DEFAULT_TRACK_INTERVAL_MS),
            ..config
        },
        Setting::TrayEnable => ConfigView { tray_enable: switch_of(value), ..config },
        Setting::Caret(field) => with_field(true, config, field, value),
        Setting::Mouse(field) => with_field(false, config, field, value),
        Setting::MouseTargetCursors => ConfigView {
            mouse_target_cursors: cursors_of(value),
            ..config
        },
    }
}

/// A setting that is given twice takes its last value: nothing of the first
/// is left, not even where the last cannot be read.
pub proof fn lemma_last_value_wins(
    config: ConfigView,
    setting: Setting,
    first: Seq<u8>,
    last: Seq<u8>,
)
    ensures
        with_setting(with_setting(config, setting, first), setting, last) == with_setting(
            config,
            setting,
            last,
        ),
{
    match setting {
        Setting::Caret(field) => lemma_last_field_wins(true, config, field, first, last),
        Setting::Mouse(field) => lemma_last_field_wins(false, config, field, first, last),
        _ => {},
    }
}

proof fn lemma_last_field_wins(
    caret: bool,
    config: ConfigView,
    field: Field,
    first: Seq<u8>,
    last: Seq<u8>,
)
    ensures
        with_field(caret, with_field(caret, config, field, first), field, last) == with_field(
            caret,
            config,
            field,
            last,
        ),
{
    match field {
        Field::Enable => {},
        Field::ColorCn => {},
        Field::ColorEn => {},
        Field::Size => {},
        Field::OffsetX => {},
        Field::OffsetY => {},
        Field::ShowEn => {},
    }
}

/// A line that is empty, a comment, or holds no equals sign changes neither
/// the section nor the settings, and a header changes no setting.
pub proof fn lemma_idle_lines(line: Seq<u8>, section: Section, config: ConfigView)
    ensures
        trimmed(line).len() == 0 || trimmed(line)[0] == 0x23 ==> after_line(line, section, config)
            == (section, config),
        trimmed(line).len() > 0 && trimmed(line)[0] == 0x5B && trimmed(line).last() == 0x5D
            ==> after_line(line, section, config).1 == config,
        section == Section::Other ==> after_line(line, section, config).1 == config,
{
}

/// The value of a `key = value` line: what follows the equals sign up to a
/// comment, without the white space around it.
pub open spec fn value_of(rest: Seq<u8>) -> Seq<u8> {
    trimmed(rest.subrange(0, comment_start(rest, 0)))
}

/// Section and settings after one line. An empty line, a comment and a line
/// without an equals sign change nothing; a header sets the section.
pub open spec fn after_line(line: Seq<u8>, section: Section, config: ConfigView) -> (
    Section,
    ConfigView,
) {
    let text = trimmed(line);
    if text.len() == 0 || text[0] == 0x23 {
        (section, config)
    } else if text[0] == 0x5B && text.last() == 0x5D {
        (section_of(text.subrange(1, text.len() - 1)), config)
    } else {
        let eq = index_of(text, 0x3D, 0);
        if eq >= text.len() {
            (section, config)
        } else {
            match setting_of(section, trimmed(text.subrange(0, eq))) {
                Some(setting) => (
                    section,
                    with_setting(
                        config,
                        setting,
                        value_of(text.subrange(eq + 1, text.len() as int)),
                    ),
                ),
                None => (section, config),
            }
        }
    }
}

/// The settings after the lines from `pos` on.
pub open spec fn config_from(bytes: Seq<u8>, pos: int, section: Section, config: ConfigView) -> ConfigView
    decreases bytes.len() - pos,
{
    if pos < 0 || pos >= bytes.len() {
        config
    } else {
        let end = index_of(bytes, 0x0A, pos);
        let next = after_line(bytes.subrange(pos, end), section, config);
        if end < pos || end >= bytes.len() {
            next.1
        } else {
            config_from(bytes, end + 1, next.0, next.1)
        }
    }
}

/// The settings that a configuration text gives.
pub open spec fn config_of(bytes: Seq<u8>) -> ConfigView {
    config_from(bytes, 0, Section::Other, ConfigView::defaults())
}

fn same_bytes(a: &[u8], b: &[u8]) -> (same: bool)
    ensures
        same == (a@ == b@),
{
    if a.len() != b.len() {
        return false;
    }
    let n: usize = a.len();
    let mut i: usize = 0;
    while i < n
        invariant
            i <= n,
            n == a@.len(),
            n == b@.len(),
            a@.take(i as int) == b@.take(i as int),
        decreases n - i,
    {
        if a[i] != b[i] {
            return false;
        }
        assert(a@.take(i + 1) =~= a@.take(i as int).push(a@[i as int]));
        assert(b@.take(i + 1) =~= b@.take(i as int).push(b@[i as int]));
        i = i + 1;
    }
    assert(a@.take(n as int) =~= a@);
    assert(b@.take(n as int) =~= b@);
    true
}

/// Names the section of a header.
pub fn read_section(name: &[u8]) -> (section: Section)
    ensures
        section == section_of(name@),
{
    if matches_name(name, "poll".as_bytes()) {
        Section::Poll
    } else if matches_name(name, "tray".as_bytes()) {
        Section::Tray
    } else if matches_name(name, "caret".as_bytes()) {
        Section::Caret
    } else if matches_name(name, "mouse".as_bytes()) {
        Section::Mouse
    } else {
        Section::Other
    }
}

fn read_field(key: &[u8]) -> (field: Option<Field>)
    ensures
        field == field_of(key@),
{
    if matches_name(key, "enable".as_bytes()) {
        Some(Field::Enable)
    } else if matches_name(key, "color_cn".as_bytes()) {
        Some(Field::ColorCn)
    } else if matches_name(key, "color_en".as_bytes()) {
        Some(Field::ColorEn)
    } else if matches_name(key, "size".as_bytes()) {
        Some(Field::Size)
    } else if matches_name(key, "offset_x".as_bytes()) {
        Some(Field::OffsetX)
    } else if matches_name(key, "offset_y".as_bytes()) {
        Some(Field::OffsetY)
    } else if matches_name(key, "show_en".as_bytes()) {
        Some(Field::ShowEn)
    } else {
        None
    }
}

/// Names the setting of a key under a section.
pub fn read_setting(section: Section, key: &[u8]) -> (setting: Option<Setting>)
    ensures
        setting == setting_of(section, key@),
{
    match section {
        Section::Poll => {
            if matches_name(key, "state_interval_ms".as_bytes()) {
                Some(Setting::StateInterval)
            } else if matches_name(key, "track_interval_ms".as_bytes()) {
                Some(Setting::TrackInterval)
            } else {
                None
            }
        },
        Section::Tray => {
            if matches_name(key, "enable".as_bytes()) {
                Some(Setting::TrayEnable)
            } else {
                None
            }
        },
        Section::Caret => match read_field(key) {
            Some(field) => Some(Setting::Caret(field)),
            None => None,
        },
        Section::Mouse => match read_field(key) {
            Some(field) => Some(Setting::Mouse(field)),
            None => {
                if matches_name(key, "target_cursors".as_bytes()) {
                    Some(Setting::MouseTargetCursors)
                } else {
                    None
                }
            },
        },
        Section::Other => None,
    }
}

fn read_switch(value: &[u8]) -> (on: bool)
    ensures
        on == switch_of(value@),
{
    same_bytes(value, "true".as_bytes())
}

fn read_interval(value: &[u8], default: u64) -> (interval: u64)
    ensures
        interval == interval_of(value@, default),
{
    match parse_unsigned(value, u64::MAX) {
        Some(number) => number,
        None => default,
    }
}

fn read_length(value: &[u8], default: i32) -> (length: i32)
    ensures
        length == length_of(value@, default),
{
    match parse_signed(value) {
        Some(number) => number,
        None => default,
    }
}

fn strip_brackets(bytes: &[u8]) -> (inner: &[u8])
    ensures
        inner@ == unbracketed(bytes@),
{
    let n: usize = bytes.len();
    let mut start: usize = 0;
    while start < n && (bytes[start] == 0x5B || bytes[start] == 0x5D)
        invariant
            start <= n,
            n == bytes@.len(),
            brackets_end(bytes@, 0) == brackets_end(bytes@, start as int),
        decreases n - start,
    {
        start = start + 1;
    }
    let mut end: usize = n;
    while start < end && (bytes[end - 1] == 0x5B || bytes[end - 1] == 0x5D)
        invariant
            start <= end <= n,
            n == bytes@.len(),
            brackets_start(bytes@, start as int, n as int) == brackets_start(
                bytes@,
                start as int,
                end as int,
            ),
        decreases end - start,
    {
        end = end - 1;
    }
    slice_subrange(bytes, start, end)
}

/// Reads a list of pointer shapes such as `[32513, 32512]`.
pub fn parse_cursors(value: &[u8]) -> (cursors: Vec<u32>)
    ensures
        cursors@ == cursors_of(value@),
{
    let inner = strip_brackets(value);
    let n: usize = inner.len();
    let mut cursors: Vec<u32> = Vec::new();
    let mut pos: usize = 0;
    loop
        invariant_except_break
            numbers_from(inner@, 0) == cursors@ + numbers_from(inner@, pos as int),
        invariant
            pos <= n,
            n == inner@.len(),
        ensures
            numbers_from(inner@, 0) == cursors@,
        decreases n - pos,
    {
        let ghost before = cursors@;
        let end: usize = find_byte(inner, 0x2C, pos);
        let item = trim(slice_subrange(inner, pos, end));
        match parse_unsigned(item, 0xFFFF_FFFF) {
            Some(number) => {
                cursors.push(number as u32);
            },
            None => {},
        }
        if end >= n {
            assert(cursors@ =~= before + numbers_from(inner@, pos as int));
            break ;
        }
        assert(cursors@ + numbers_from(inner@, end + 1) =~= before + numbers_from(
            inner@,
            pos as int,
        ));
        pos = end + 1;
    }
    cursors
}

fn apply_field(caret: bool, config: &mut Config, field: Field, value: &[u8])
    ensures
        final(config)@ == with_field(caret, old(config)@, field, value@),
{
    match field {
        Field::Enable => {
            let on = read_switch(value);
            if caret {
                config.caret_enable = on;
            } else {
                config.mouse_enable = on;
            }
        },
        Field::ColorCn => {
            let color = parse_color_bytes(value);
            if caret {
                config.caret_color_cn = color;
            } else {
                config.mouse_color_cn = color;
            }
        },
        Field::ColorEn => {
            let color = parse_color_bytes(value);
            if caret {
                config.caret_color_en = color;
            } else {
                config.mouse_color_en = color;
            }
        },
        Field::Size => {
            let size = read_length(value, DEFAULT_SIZE);
            if caret {
                config.caret_size = size;
            } else {
                config.mouse_size = size;
            }
        },
        Field::OffsetX => {
            if caret {
                config.caret_offset_x = read_length(value, DEFAULT_CARET_OFFSET_X);
            } else {
                config.mouse_offset_x = read_length(value, DEFAULT_MOUSE_OFFSET_X);
            }
        },
        Field::OffsetY => {
            if caret {
                config.caret_offset_y = read_length(value, DEFAULT_CARET_OFFSET_Y);
            } else {
                config.mouse_offset_y = read_length(value, DEFAULT_MOUSE_OFFSET_Y);
            }
        },
        Field::ShowEn => {
            let on = read_switch(value);
            if caret {
                config.caret_show_en = on;
            } else {
                config.mouse_show_en = on;
            }
        },
    }
}

/// Gives one setting its value.
pub fn apply_setting(config: &mut Config, setting: Setting, value: &[u8])
    ensures
        final(config)@ == with_setting(old(config)@, setting, value@),
{
    match setting {
        Setting::StateInterval => {
            config.poll_state_interval_ms = read_interval(value, DEFAULT_STATE_INTERVAL_MS);
        },
        Setting::TrackInterval => {
            config.poll_track_interval_ms = read_interval(value, DEFAULT_TRACK_INTERVAL_MS);
        },
        Setting::TrayEnable => {
            config.tray_enable = read_switch(value);
        },
        Setting::Caret(field) => {
            apply_field(true, config, field, value);
        },
        Setting::Mouse(field) => {
            apply_field(false, config, field, value);
        },
        Setting::MouseTargetCursors => {
            config.mouse_target_cursors = parse_cursors(value);
        },
    }
}

/// Reads one line into the settings and returns the section that the next
/// line stands under.
pub fn apply_line(config: &mut Config, section: Section, line: &[u8]) -> (next: Section)
    ensures
        next == after_line(line@, section, old(config)@).0,
        final(config)@ == after_line(line@, section, old(config)@).1,
{
    let text = trim(line);
    let n: usize = text.len();
    if n == 0 || text[0] == 0x23 {
        return section;
    }
    if text[0] == 0x5B && text[n - 1] == 0x5D {
        return read_section(slice_subrange(text, 1, n - 1));
    }
    let eq: usize = find_byte(text, 0x3D, 0);
    if eq >= n {
        return section;
    }
    let key = trim(slice_subrange(text, 0, eq));
    match read_setting(section, key) {
        Some(setting) => {
            let rest = slice_subrange(text, eq + 1, n);
            let value = trim(slice_subrange(rest, 0, find_comment(rest)));
            apply_setting(config, setting, value);
        },
        None => {},
    }
    section
}

/// Reads a configuration from its UTF-8 bytes.
pub fn parse_config_bytes(bytes: &[u8]) -> (config: Config)
    ensures
        config@ == config_of(bytes@),
{
    let n: usize = bytes.len();
    let mut config = Config::default();
    let mut section = Section::Other;
    let mut pos: usize = 0;
    while pos < n
        invariant
            pos <= n,
            n == bytes@.len(),
            config_of(bytes@) == config_from(bytes@, pos as int, section, config@),
        decreases n - pos,
    {
        let end: usize = find_byte(bytes, 0x0A, pos);
        section = apply_line(&mut config, section, slice_subrange(bytes, pos, end));
        if end >= n {
            pos = n;
        } else {
            pos = end + 1;
        }
    }
    config
}

/// The configuration that is written out where none is found. It sets every
/// setting to its default.
pub const CONFIG_TEMPLATE: &'static str = "# 输入指示器 (IME Indicator) 配置文件\n\
[poll]\n\
state_interval_ms = 100   # 状态检测间隔 (ms)\n\
track_interval_ms = 10    # 位置追踪间隔 (ms)\n\
\n\
[tray]\n\
enable = true               # 是否显示托盘图标 (false 时完全后台运行，只能通过任务管理器结束)\n\
\n\
[caret]\n\
enable = true               # 是否启用文本光标提示\n\
color_cn = \"#FF7800A0\"    # 中文状态颜色 (#RRGGBBAA)\n\
color_en = \"#0078FF30\"    # 英文状态颜色\n\
size = 8                    # 提示球大小\n\
offset_x = 0\n\
offset_y = 0\n\
show_en = true              # 英文状态下是否显示\n\
\n\
[mouse]\n\
enable = true               # 是否开启鼠标提示\n\
color_cn = \"#FF7800A0\"    # 中文状态颜色\n\
color_en = \"#0078FF30\"    # 英文状态颜色\n\
size = 8                    # 提示球大小\n\
offset_x = 2\n\
offset_y = 18\n\
show_en = true              # 英文状态下是否显示\n\
target_cursors = [32513, 32512]  # I-Beam, Normal\n";

/// A fresh copy of `CONFIG_TEMPLATE`.
pub fn generate_toml_template() -> (text: String)
    ensures
        text@ == CONFIG_TEMPLATE@,
{
    CONFIG_TEMPLATE.to_owned()
}

/// What was found where the configuration is kept.
pub enum ConfigFile<'a> {
    /// No file is there.
    Missing,
    /// A file is there and could not be read as text.
    Unreadable,
    /// The text of the file.
    Text(&'a str),
}

/// The settings to run with, and whether the template is to be written out.
pub struct Loaded {
    pub config: Config,
    pub write_template: bool,
}

/// The settings that `file` gives: those of its text, and the defaults where
/// there is none.
pub open spec fn loaded_config(file: ConfigFile) -> ConfigView {
    match file {
        ConfigFile::Text(content) => config_of(content.spec_bytes()),
        _ => ConfigView::defaults(),
    }
}

/// Decides what to run with. A missing file is answered with the defaults
/// and with the template, so that the user finds something to edit; an
/// unreadable one with the defaults alone.
pub fn load_config(file: ConfigFile) -> (loaded: Loaded)
    ensures
        loaded.config@ == loaded_config(file),
        loaded.write_template == (file is Missing),
{
    match file {
        ConfigFile::Missing => Loaded { config: Config::default(), write_template: true },
        ConfigFile::Unreadable => Loaded { config: Config::default(), write_template: false },
        ConfigFile::Text(content) => Loaded {
            config: parse_config(content),
            write_template: false,
        },
    }
}

/// Reads a configuration from its text.
pub fn parse_config(content: &str) -> (config: Config)
    ensures
        config@ == config_of(content.spec_bytes()),
{
    parse_config_bytes(content.as_bytes())
}

} // verus!
