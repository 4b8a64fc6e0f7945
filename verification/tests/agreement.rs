//! The byte-level readers against the same reading written with the standard
//! library's string functions, on texts drawn from a fixed pseudo-random run.

use std::collections::HashMap;

use rust_indicator::config::{parse_color, Config};
use rust_indicator::config_text::parse_config;

/// A colour read with `str` methods; `None` where a channel would be cut
/// through the middle of a character.
fn color_with_std(text: &str) -> Option<u32> {
    let clean = text.trim().trim_matches('"').trim_start_matches('#');
    if clean.len() < 6 {
        return Some(0xA0FF7800);
    }
    let r = u32::from_str_radix(clean.get(0..2)?, 16).unwrap_or(0);
    let g = u32::from_str_radix(clean.get(2..4)?, 16).unwrap_or(0);
    let b = u32::from_str_radix(clean.get(4..6)?, 16).unwrap_or(0);
    let a = if clean.len() == 8 {
        u32::from_str_radix(clean.get(6..8)?, 16).unwrap_or(0xA0)
    } else {
        0xA0
    };
    Some((a << 24) | (r << 16) | (g << 8) | b)
}

/// A configuration read with `str` methods and a map of sections.
fn config_with_std(content: &str) -> Option<Config> {
    let mut config = Config::default();
    let mut sections: HashMap<String, HashMap<String, String>> = HashMap::new();
    let mut section = String::new();
    for line in content.lines() {
        let line = line.trim();
        if line.is_empty() || line.starts_with('#') {
            continue;
        }
        if line.starts_with('[') && line.ends_with(']') {
            section = line[1..line.len() - 1].to_lowercase();
        } else if let Some((key, value)) = line.split_once('=') {
            let key = key.trim().to_lowercase();
            let value = value.split(" #").next().unwrap().trim().to_string();
            sections.entry(section.clone()).or_default().insert(key, value);
        }
    }
    let get = |section: &str, key: &str| sections.get(section)?.get(key);
    if let Some(v) = get("poll", "state_interval_ms") {
        if let Ok(n) = v.parse() {
            config.poll_state_interval_ms = n;
        }
    }
    if let Some(v) = get("poll", "track_interval_ms") {
        if let Ok(n) = v.parse() {
            config.poll_track_interval_ms = n;
        }
    }
    if let Some(v) = get("tray", "enable") {
        config.tray_enable = v == "true";
    }
    if let Some(v) = get("caret", "enable") {
        config.caret_enable = v == "true";
    }
    if let Some(v) = get("caret", "color_cn") {
        config.caret_color_cn = color_with_std(v)?;
    }
    if let Some(v) = get("caret", "color_en") {
        config.caret_color_en = color_with_std(v)?;
    }
    if let Some(v) = get("caret", "size") {
        if let Ok(n) = v.parse() {
            config.caret_size = n;
        }
    }
    if let Some(v) = get("caret", "offset_x") {
        if let Ok(n) = v.parse() {
            config.caret_offset_x = n;
        }
    }
    if let Some(v) = get("caret", "offset_y") {
        if let Ok(n) = v.parse() {
            config.caret_offset_y = n;
        }
    }
    if let Some(v) = get("caret", "show_en") {
        config.caret_show_en = v == "true";
    }
    if let Some(v) = get("mouse", "enable") {
        config.mouse_enable = v == "true";
    }
    if let Some(v) = get("mouse", "color_cn") {
        config.mouse_color_cn = color_with_std(v)?;
    }
    if let Some(v) = get("mouse", "color_en") {
        config.mouse_color_en = color_with_std(v)?;
    }
    if let Some(v) = get("mouse", "size") {
        if let Ok(n) = v.parse() {
            config.mouse_size = n;
        }
    }
    if let Some(v) = get("mouse", "offset_x") {
        if let Ok(n) = v.parse() {
            config.mouse_offset_x = n;
        }
    }
    if let Some(v) = get("mouse", "offset_y") {
        if let Ok(n) = v.parse() {
            config.mouse_offset_y = n;
        }
    }
    if let Some(v) = get("mouse", "show_en") {
        config.mouse_show_en = v == "true";
    }
    if let Some(v) = get("mouse", "target_cursors") {
        config.mouse_target_cursors = v
            .trim_matches(|c| c == '[' || c == ']')
            .split(',')
            .filter_map(|s| s.trim().parse().ok())
            .collect();
    }
    Some(config)
}

struct Draw(u64);

impl Draw {
    fn below(&mut self, bound: usize) -> usize {
        self.0 = self.0.wrapping_mul(6364136223846793005).wrapping_add(1442695040888963407);
        ((self.0 >> 33) as usize) % bound
    }

    fn text(&mut self, pieces: &[&str], longest: usize) -> String {
        let count = self.below(longest + 1);
        let mut text = String::new();
        for _ in 0..count {
            text.push_str(pieces[self.below(pieces.len())]);
        }
        text
    }
}

#[test]
fn colors_agree_with_the_standard_reading() {
    let pieces = [
        " ", "\"", "#", "0", "1", "7", "9", "a", "c", "F", "D", "g", "+", "-", "\t", "\u{e9}",
        "\u{3000}", "\u{a0}", "\u{4e2d}",
    ];
    let mut draw = Draw(1);
    let mut compared = 0;
    for _ in 0..20000 {
        let text = draw.text(&pieces, 14);
        if let Some(expected) = color_with_std(&text) {
            assert_eq!(parse_color(&text), expected, "{:?}", text);
            compared += 1;
        }
    }
    assert!(compared > 2000, "{compared}");
}

#[test]
fn configurations_agree_with_the_standard_reading() {
    let pieces = [
        "\n[poll]\n", "\n[tray]\n", "\n[caret]\n", "\n[mouse]\n", "\n[Mouse]\r\n", "\n [CARET] \n",
        "\n[other]\n", "\n[", "]", "\nenable", "\nsize", "\nSIZE", "\noffset_x", "\noffset_y",
        "\nshow_en", "\ncolor_cn", "\ncolor_en", "\nstate_interval_ms", "\ntrack_interval_ms",
        "\ntrac\u{212A}_interval_ms", "\ntarget_cursors", "=", " = ", "=", " = ", " ", "#", " #",
        " # note", "\n", "\r\n", "\t", "true", "false", "True", "0", "12", "-3", "+7", "007",
        "99999999999", "18446744073709551615", "-2147483648", "\"#11223344\"", "\"#AABBCC\"",
        "#aabbcc", "[1, 2]", "[32513,x, 7]", ",", "\u{3000}", "\u{e9}", "x",
    ];
    let mut draw = Draw(7);
    let mut compared = 0;
    let mut changed = 0;
    for _ in 0..6000 {
        let text = draw.text(&pieces, 40);
        if let Some(expected) = config_with_std(&text) {
            assert_eq!(parse_config(&text), expected, "{:?}", text);
            compared += 1;
            if expected != Config::default() {
                changed += 1;
            }
        }
    }
    assert!(compared > 2000, "{compared}");
    assert!(changed > 100, "{changed}");
}

#[test]
fn whole_lines_agree_with_the_standard_reading() {
    let sections = ["[poll]", "[tray]", "[caret]", "[mouse]", " [ mouse ] ", "[MOUSE]"];
    let keys = [
        "state_interval_ms", "track_interval_ms", "enable", "color_cn", "color_en", "size",
        "offset_x", "offset_y", "show_en", "target_cursors", "Size", " enable ",
    ];
    let values = [
        "true", "false", " true # on", "12", "-5", "+3", "abc", "", "\"#010203\"",
        "\"#01020304\" # colour", "#010203", "[1,2,3]", "[ 4 , five, 6 ] # shapes", "1 #", "1#2",
        "99999999999999999999", "\u{3000}8\u{3000}",
    ];
    let mut draw = Draw(3);
    for _ in 0..3000 {
        let mut text = String::new();
        for _ in 0..draw.below(8) + 1 {
            if draw.below(3) == 0 {
                text.push_str(sections[draw.below(sections.len())]);
            } else {
                text.push_str(keys[draw.below(keys.len())]);
                text.push_str(["=", " = ", " =", "= "][draw.below(4)]);
                text.push_str(values[draw.below(values.len())]);
            }
            text.push_str(["\n", "\r\n", "\n\n"][draw.below(3)]);
        }
        let expected = config_with_std(&text).unwrap();
        assert_eq!(parse_config(&text), expected, "{:?}", text);
    }
}
