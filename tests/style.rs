use table_style::presets::ASCII_FULL;
use table_style::{Component, ContentArrangement, TableStyle, COMPONENT_COUNT};

fn snapshot(style: &mut TableStyle) -> Vec<Option<char>> {
    let mut out = Vec::new();
    for c in Component::all() {
        out.push(style.get_style(c));
    }
    out
}

fn blank_style() -> TableStyle {
    let mut style = TableStyle::new();
    style.load_preset("                   ");
    style
}

#[test]
fn components_in_canonical_order() {
    let all = Component::all();
    assert_eq!(all.len(), COMPONENT_COUNT);
    assert_eq!(all[0], Component::LeftBorder);
    assert_eq!(all[3], Component::BottomBorder);
    assert_eq!(all[5], Component::HeaderLines);
    assert_eq!(all[18], Component::BottomRightCorner);
    for (i, c) in all.into_iter().enumerate() {
        assert_eq!(c.position(), i);
    }
}

#[test]
fn new_style_uses_default_preset() {
    let mut style = TableStyle::new();
    let expected: Vec<Option<char>> = ASCII_FULL.chars().map(Some).collect();
    assert_eq!(snapshot(&mut style), expected);
    assert_eq!(style.get_style(Component::LeftBorder), Some('|'));
    assert_eq!(style.get_style(Component::TopBorder), Some('-'));
    assert_eq!(style.get_style(Component::HeaderLines), Some('='));
    assert_eq!(style.get_style(Component::TopLeftCorner), Some('+'));
    assert_eq!(style.style_or_default(Component::HeaderLines), "=");
}

#[test]
fn unmapped_component_reads_blank() {
    let style = blank_style();
    for c in Component::all() {
        assert!(!style.style_exists(c));
        assert_eq!(style.style_or_default(c), " ");
    }
}

#[test]
fn preset_scenario_first_four_components() {
    let mut style = TableStyle::new();
    style.load_preset("AB C");
    assert_eq!(style.get_style(Component::LeftBorder), Some('A'));
    assert_eq!(style.get_style(Component::RightBorder), Some('B'));
    assert_eq!(style.get_style(Component::TopBorder), None);
    assert!(!style.style_exists(Component::TopBorder));
    assert_eq!(style.style_or_default(Component::TopBorder), " ");
    assert_eq!(style.get_style(Component::BottomBorder), Some('C'));
}

#[test]
fn modifier_scenario_after_preset() {
    let mut style = TableStyle::new();
    style.load_preset("AB C");
    style.apply_modifier("X Y");
    assert_eq!(style.get_style(Component::LeftBorder), Some('X'));
    assert_eq!(style.get_style(Component::RightBorder), Some('B'));
    assert_eq!(style.get_style(Component::TopBorder), Some('Y'));
    assert_eq!(style.get_style(Component::BottomBorder), Some('C'));
}

#[test]
fn preset_space_clears_and_chars_set() {
    let mut style = TableStyle::new();
    style.load_preset("a b c d e f g h i j");
    let got = snapshot(&mut style);
    let preset: Vec<char> = "a b c d e f g h i j".chars().collect();
    for i in 0..COMPONENT_COUNT {
        if preset[i] == ' ' {
            assert_eq!(got[i], None);
        } else {
            assert_eq!(got[i], Some(preset[i]));
        }
    }
}

#[test]
fn short_preset_keeps_remaining_components() {
    let mut style = TableStyle::new();
    style.set_style(Component::BottomRightCorner, Some('#'));
    let before = snapshot(&mut style);
    style.load_preset("12");
    let after = snapshot(&mut style);
    assert_eq!(after[0], Some('1'));
    assert_eq!(after[1], Some('2'));
    assert_eq!(after[2..], before[2..]);
    assert_eq!(style.get_style(Component::BottomRightCorner), Some('#'));
}

#[test]
fn short_preset_does_not_restore_default() {
    let mut style = blank_style();
    style.load_preset("|");
    assert_eq!(style.get_style(Component::LeftBorder), Some('|'));
    assert!(!style.style_exists(Component::RightBorder));
    assert!(!style.style_exists(Component::BottomRightCorner));
}

#[test]
fn empty_preset_changes_nothing() {
    let mut style = TableStyle::new();
    let before = snapshot(&mut style);
    style.load_preset("");
    assert_eq!(snapshot(&mut style), before);
}

#[test]
fn long_preset_ignores_excess() {
    let mut style = TableStyle::new();
    style.load_preset("abcdefghijklmnopqrsTUVWXYZ");
    let expected: Vec<Option<char>> = "abcdefghijklmnopqrs".chars().map(Some).collect();
    assert_eq!(snapshot(&mut style), expected);
}

#[test]
fn preset_with_multibyte_characters() {
    let mut style = TableStyle::new();
    style.load_preset("││──╞═╪╡┆╌┼├┤┬┴╭╮╰╯");
    assert_eq!(style.get_style(Component::LeftBorder), Some('│'));
    assert_eq!(style.get_style(Component::HeaderLines), Some('═'));
    assert_eq!(style.get_style(Component::TopLeftCorner), Some('╭'));
    assert_eq!(style.get_style(Component::BottomRightCorner), Some('╯'));
    assert_eq!(style.style_or_default(Component::TopRightCorner), "╮");
}

#[test]
fn preset_twice_same_as_once() {
    let mut once = TableStyle::new();
    once.load_preset("x y  z");
    let mut twice = TableStyle::new();
    twice.load_preset("x y  z");
    twice.load_preset("x y  z");
    assert_eq!(snapshot(&mut once), snapshot(&mut twice));
}

#[test]
fn modifier_space_skips_component() {
    let mut style = TableStyle::new();
    let before = snapshot(&mut style);
    style.apply_modifier("               ╭╮╰╯");
    let after = snapshot(&mut style);
    assert_eq!(after[..15], before[..15]);
    assert_eq!(style.get_style(Component::TopLeftCorner), Some('╭'));
    assert_eq!(style.get_style(Component::TopRightCorner), Some('╮'));
    assert_eq!(style.get_style(Component::BottomLeftCorner), Some('╰'));
    assert_eq!(style.get_style(Component::BottomRightCorner), Some('╯'));
}

#[test]
fn modifier_space_keeps_unmapped_component() {
    let mut style = blank_style();
    style.apply_modifier(" M");
    assert!(!style.style_exists(Component::LeftBorder));
    assert_eq!(style.get_style(Component::RightBorder), Some('M'));
}

#[test]
fn long_modifier_ignores_excess() {
    let mut style = blank_style();
    style.apply_modifier("abcdefghijklmnopqrsTUV");
    let expected: Vec<Option<char>> = "abcdefghijklmnopqrs".chars().map(Some).collect();
    assert_eq!(snapshot(&mut style), expected);
}

#[test]
fn modifiers_chain() {
    let mut style = blank_style();
    style.apply_modifier("a").apply_modifier(" b").apply_modifier("c");
    assert_eq!(style.get_style(Component::LeftBorder), Some('c'));
    assert_eq!(style.get_style(Component::RightBorder), Some('b'));
}

#[test]
fn set_style_none_is_no_op() {
    let mut style = TableStyle::new();
    let before = snapshot(&mut style);
    style.set_style(Component::TopBorder, None);
    assert_eq!(snapshot(&mut style), before);
    assert_eq!(style.get_style(Component::TopBorder), Some('-'));

    let mut blank = blank_style();
    blank.set_style(Component::TopBorder, None);
    assert!(!blank.style_exists(Component::TopBorder));
}

#[test]
fn set_style_then_get() {
    let mut style = TableStyle::new();
    style.set_style(Component::MiddleIntersections, Some('*'));
    assert_eq!(style.get_style(Component::MiddleIntersections), Some('*'));
    assert!(style.style_exists(Component::MiddleIntersections));
    assert_eq!(style.style_or_default(Component::MiddleIntersections), "*");
    assert_eq!(style.get_style(Component::HorizontalLines), Some('-'));
}

#[test]
fn set_style_chains() {
    let mut style = blank_style();
    style
        .set_style(Component::LeftBorder, Some('<'))
        .set_style(Component::RightBorder, Some('>'))
        .set_style(Component::LeftBorder, None);
    assert_eq!(style.get_style(Component::LeftBorder), Some('<'));
    assert_eq!(style.get_style(Component::RightBorder), Some('>'));
}

#[test]
fn clone_is_independent() {
    let mut original = TableStyle::new();
    let mut copy = original.clone();
    copy.set_style(Component::LeftBorder, Some('!'));
    assert_eq!(original.get_style(Component::LeftBorder), Some('|'));
    assert_eq!(copy.get_style(Component::LeftBorder), Some('!'));
}

#[test]
fn content_arrangement_variants() {
    let modes = [ContentArrangement::Disabled, ContentArrangement::Automatic];
    assert_eq!(modes.len(), 2);
}
