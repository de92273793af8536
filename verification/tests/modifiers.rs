use helix_anywhere::modifiers::{
    get_modifier_mask, lowercase_names, modifier_flag, modifiers_from_names, modifiers_config_to_display, modifiers_from_config,
    modifiers_to_config, modifiers_to_display, FLAG_ALTERNATE, FLAG_COMMAND, FLAG_CONTROL,
    FLAG_SHIFT, MODIFIER_MASK,
};

fn strings(names: &[&str]) -> Vec<String> {
    names.iter().map(|n| n.to_string()).collect()
}

#[test]
fn the_flags_are_those_of_the_keyboard_events() {
    assert_eq!(FLAG_COMMAND, 0x0010_0000);
    assert_eq!(FLAG_SHIFT, 0x0002_0000);
    assert_eq!(FLAG_ALTERNATE, 0x0008_0000);
    assert_eq!(FLAG_CONTROL, 0x0004_0000);
    assert_eq!(MODIFIER_MASK, 0x001E_0000);
    assert_eq!(get_modifier_mask(), 0x001E_0000);
}

#[test]
fn each_name_gives_its_flag() {
    assert_eq!(modifier_flag("cmd"), FLAG_COMMAND);
    assert_eq!(modifier_flag("command"), FLAG_COMMAND);
    assert_eq!(modifier_flag("shift"), FLAG_SHIFT);
    assert_eq!(modifier_flag("alt"), FLAG_ALTERNATE);
    assert_eq!(modifier_flag("option"), FLAG_ALTERNATE);
    assert_eq!(modifier_flag("ctrl"), FLAG_CONTROL);
    assert_eq!(modifier_flag("control"), FLAG_CONTROL);
    assert_eq!(modifier_flag("Cmd"), 0);
    assert_eq!(modifier_flag("super"), 0);
    assert_eq!(modifier_flag(""), 0);
}

#[test]
fn the_default_chord_has_command_and_shift() {
    assert_eq!(modifiers_from_config(&strings(&["cmd", "shift"])), 0x0012_0000);
}

#[test]
fn modifier_names_are_read_without_regard_to_case_or_order() {
    assert_eq!(modifiers_from_config(&strings(&["SHIFT", "Cmd"])), 0x0012_0000);
    assert_eq!(modifiers_from_config(&strings(&["Command", "Option"])), 0x0018_0000);
    assert_eq!(modifiers_from_config(&strings(&["CTRL", "control", "ctrl"])), 0x0004_0000);
    assert_eq!(
        modifiers_from_config(&strings(&["ctrl", "alt", "shift", "cmd"])),
        0x001E_0000
    );
}

#[test]
fn unknown_modifier_names_add_nothing() {
    assert_eq!(modifiers_from_config(&strings(&[])), 0);
    assert_eq!(modifiers_from_config(&strings(&["hyper"])), 0);
    assert_eq!(modifiers_from_config(&strings(&["cmd", "fn", "shift", ""])), 0x0012_0000);
}

#[test]
fn symbols_come_in_the_order_control_option_shift_command() {
    assert_eq!(modifiers_to_display(0), "");
    assert_eq!(modifiers_to_display(FLAG_COMMAND), "\u{2318}");
    assert_eq!(modifiers_to_display(FLAG_SHIFT), "\u{21E7}");
    assert_eq!(modifiers_to_display(FLAG_ALTERNATE), "\u{2325}");
    assert_eq!(modifiers_to_display(FLAG_CONTROL), "\u{2303}");
    assert_eq!(modifiers_to_display(0x0012_0000), "\u{21E7}\u{2318}");
    assert_eq!(modifiers_to_display(0x001E_0000), "\u{2303}\u{2325}\u{21E7}\u{2318}");
    assert_eq!(modifiers_to_display(0x0000_0100), "");
    assert_eq!(modifiers_to_display(u64::MAX), "\u{2303}\u{2325}\u{21E7}\u{2318}");
}

#[test]
fn config_names_are_shown_as_symbols() {
    assert_eq!(modifiers_config_to_display(&strings(&["cmd", "shift"])), "\u{21E7}\u{2318}");
    assert_eq!(modifiers_config_to_display(&strings(&["Option", "CONTROL"])), "\u{2303}\u{2325}");
    assert_eq!(modifiers_config_to_display(&strings(&["meta"])), "");
}

#[test]
fn names_come_in_the_order_command_shift_option_control() {
    assert_eq!(modifiers_to_config(0), Vec::<String>::new());
    assert_eq!(modifiers_to_config(0x0012_0000), strings(&["cmd", "shift"]));
    assert_eq!(modifiers_to_config(0x001E_0000), strings(&["cmd", "shift", "alt", "ctrl"]));
    assert_eq!(modifiers_to_config(FLAG_CONTROL | 0x100), strings(&["ctrl"]));
    assert_eq!(modifiers_to_config(0x0000_0100), Vec::<String>::new());
}

#[test]
fn written_names_read_back_to_the_tracked_flags() {
    let noise = [0u64, 0x100, 0x0001_0000, 0x0020_0000, 0xFFFF_FFFF_FFE1_FFFF];
    for bits in 0..16u64 {
        let mut flags = 0;
        if bits & 1 != 0 {
            flags |= FLAG_COMMAND;
        }
        if bits & 2 != 0 {
            flags |= FLAG_SHIFT;
        }
        if bits & 4 != 0 {
            flags |= FLAG_ALTERNATE;
        }
        if bits & 8 != 0 {
            flags |= FLAG_CONTROL;
        }
        for extra in noise {
            let names = modifiers_to_config(flags | extra);
            assert_eq!(names.len() as u32, bits.count_ones());
            assert_eq!(modifiers_from_config(&names), flags);
            assert_eq!(modifiers_from_config(&names), (flags | extra) & MODIFIER_MASK);
        }
    }
}

#[test]
fn lower_case_names_give_their_flags_as_written() {
    assert_eq!(modifiers_from_names(&strings(&["cmd", "shift"])), 0x0012_0000);
    assert_eq!(modifiers_from_names(&strings(&["ctrl", "alt", "shift", "cmd"])), 0x001E_0000);
    assert_eq!(modifiers_from_names(&strings(&["command", "option", "control"])), 0x001C_0000);
    assert_eq!(modifiers_from_names(&strings(&["Cmd", "SHIFT"])), 0);
    assert_eq!(modifiers_from_names(&strings(&["cmd", "Shift"])), FLAG_COMMAND);
    assert_eq!(modifiers_from_names(&strings(&[])), 0);
}

#[test]
fn names_are_put_in_lower_case_one_by_one() {
    assert_eq!(lowercase_names(&strings(&["Cmd", "SHIFT", "alt", ""])), strings(&["cmd", "shift", "alt", ""]));
    assert_eq!(lowercase_names(&strings(&[])), Vec::<String>::new());
    for names in [strings(&["CMD", "Shift"]), strings(&["Option", "x", "CTRL"])] {
        assert_eq!(modifiers_from_config(&names), modifiers_from_names(&lowercase_names(&names)));
    }
}
