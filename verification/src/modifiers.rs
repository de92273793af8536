//! The modifier keys of a chord: the bits that a keyboard event carries for
//! them, the names under which the settings write them, and the symbols that
//! the menu shows.

use crate::text::{lowercase, str_eq};
use vstd::prelude::*;

verus! {

/// The bit that a keyboard event carries while the command key is down.
pub const FLAG_COMMAND: u64 = 0x0010_0000;

/// The bit that a keyboard event carries while a shift key is down.
pub const FLAG_SHIFT: u64 = 0x0002_0000;

/// The bit that a keyboard event carries while an option key is down.
pub const FLAG_ALTERNATE: u64 = 0x0008_0000;

/// The bit that a keyboard event carries while a control key is down.
pub const FLAG_CONTROL: u64 = 0x0004_0000;

/// The bits of the four modifiers that take part in a chord. Every other bit
/// of an event's flags is ignored.
pub const MODIFIER_MASK: u64 = 0x001E_0000;

/// The bit of the modifier that a lower-case name stands for; `0` for a name
/// that stands for none.
pub open spec fn flag_of_name(name: Seq<char>) -> u64 {
    if name == "cmd"@ || name == "command"@ {
        FLAG_COMMAND
    } else if name == "shift"@ {
        FLAG_SHIFT
    } else if name == "alt"@ || name == "option"@ {
        FLAG_ALTERNATE
    } else if name == "ctrl"@ || name == "control"@ {
        FLAG_CONTROL
    } else {
        0
    }
}

/// The bits of all the modifiers that a list of lower-case names stands for.
pub open spec fn flags_of_names(names: Seq<Seq<char>>) -> u64
    decreases names.len(),
{
    if names.len() == 0 {
        0
    } else {
        flags_of_names(names.drop_last()) | flag_of_name(names.last())
    }
}

/// The names of a list in lower case.
pub open spec fn lowercase_all(names: Seq<Seq<char>>) -> Seq<Seq<char>> {
    names.map_values(|name: Seq<char>| lowercase(name))
}

/// The names under which the settings write the tracked modifiers of a set of
/// flags: command, shift, option, control, in this order.
pub open spec fn config_names_of(flags: u64) -> Seq<Seq<char>> {
    (if flags & FLAG_COMMAND != 0 {
        seq!["cmd"@]
    } else {
        Seq::empty()
    }) + (if flags & FLAG_SHIFT != 0 {
        seq!["shift"@]
    } else {
        Seq::empty()
    }) + (if flags & FLAG_ALTERNATE != 0 {
        seq!["alt"@]
    } else {
        Seq::empty()
    }) + (if flags & FLAG_CONTROL != 0 {
        seq!["ctrl"@]
    } else {
        Seq::empty()
    })
}

/// The symbols that the menu shows for the tracked modifiers of a set of
/// flags: control, option, shift, command, in this order.
pub open spec fn display_of_flags(flags: u64) -> Seq<char> {
    (if flags & FLAG_CONTROL != 0 {
        "⌃"@
    } else {
        Seq::empty()
    }) + (if flags & FLAG_ALTERNATE != 0 {
        "⌥"@
    } else {
        Seq::empty()
    }) + (if flags & FLAG_SHIFT != 0 {
        "⇧"@
    } else {
        Seq::empty()
    }) + (if flags & FLAG_COMMAND != 0 {
        "⌘"@
    } else {
        Seq::empty()
    })
}

/// The mask of the modifier bits that take part in a chord.
pub fn get_modifier_mask() -> (mask: u64)
    ensures
        mask == MODIFIER_MASK,
{
    MODIFIER_MASK
}

/// The bit of the modifier that a lower-case name stands for; `0` for an
/// unknown name.
pub fn modifier_flag(name: &str) -> (flag: u64)
    ensures
        flag == flag_of_name(name@),
{
    if str_eq(name, "cmd") || str_eq(name, "command") {
        FLAG_COMMAND
    } else if str_eq(name, "shift") {
        FLAG_SHIFT
    } else if str_eq(name, "alt") || str_eq(name, "option") {
        FLAG_ALTERNATE
    } else if str_eq(name, "ctrl") || str_eq(name, "control") {
        FLAG_CONTROL
    } else {
        0
    }
}

/// The names of a list in lower case.
pub fn lowercase_names(names: &[String]) -> (lowered: Vec<String>)
    ensures
        lowered.deep_view() == lowercase_all(names.deep_view()),
{
    let mut lowered: Vec<String> = Vec::new();
    let mut i: usize = 0;
    while i < names.len()
        invariant
            i <= names.len(),
            lowered.len() == i,
            forall|j: int| 0 <= j < i ==> lowered@[j]@ == lowercase(names@[j]@),
        decreases names.len() - i,
    {
        lowered.push(names[i].as_str().to_lowercase());
        i += 1;
    }
    assert(lowered.deep_view() =~= lowercase_all(names.deep_view()));
    lowered
}

/// The flags of the modifiers that a list of lower-case names stands for; a
/// name that stands for none adds nothing.
pub fn modifiers_from_names(names: &[String]) -> (flags: u64)
    ensures
        flags == flags_of_names(names.deep_view()),
{
    let ghost all = names.deep_view();
    let mut flags: u64 = 0;
    let mut i: usize = 0;
    while i < names.len()
        invariant
            i <= names.len(),
            all == names.deep_view(),
            flags == flags_of_names(all.take(i as int)),
        decreases names.len() - i,
    {
        proof {
            let next = all.take(i as int + 1);
            assert(next.drop_last() =~= all.take(i as int));
            assert(next.last() == names@[i as int]@);
        }
        flags = flags | modifier_flag(names[i].as_str());
        i += 1;
    }
    assert(all.take(i as int) =~= all);
    flags
}

/// The flags of the modifiers that the settings name. A name is read without
/// regard to case; an unknown name adds nothing.
pub fn modifiers_from_config(modifiers: &[String]) -> (flags: u64)
    ensures
        flags == flags_of_names(lowercase_all(modifiers.deep_view())),
{
    let lowered = lowercase_names(modifiers);
    modifiers_from_names(lowered.as_slice())
}

/// The symbols that the menu shows for a set of flags: one for each tracked
/// modifier that is set, in the order control, option, shift, command.
pub fn modifiers_to_display(modifiers: u64) -> (shown: String)
    ensures
        shown@ == display_of_flags(modifiers),
{
    let mut shown = String::new();
    if modifiers & FLAG_CONTROL != 0 {
        shown.append("⌃");
    }
    if modifiers & FLAG_ALTERNATE != 0 {
        shown.append("⌥");
    }
    if modifiers & FLAG_SHIFT != 0 {
        shown.append("⇧");
    }
    if modifiers & FLAG_COMMAND != 0 {
        shown.append("⌘");
    }
    assert(shown@ =~= display_of_flags(modifiers));
    shown
}

/// The symbols that the menu shows for the modifiers that the settings name.
pub fn modifiers_config_to_display(modifiers: &[String]) -> (shown: String)
    ensures
        shown@ == display_of_flags(flags_of_names(lowercase_all(modifiers.deep_view()))),
{
    let flags = modifiers_from_config(modifiers);
    modifiers_to_display(flags)
}

/// The names under which the settings write a set of flags: one for each
/// tracked modifier that is set, in the order command, shift, option, control.
pub fn modifiers_to_config(modifiers: u64) -> (names: Vec<String>)
    ensures
        names.deep_view() == config_names_of(modifiers),
{
    let mut names: Vec<String> = Vec::new();
    if modifiers & FLAG_COMMAND != 0 {
        names.push("cmd".to_owned());
    }
    if modifiers & FLAG_SHIFT != 0 {
        names.push("shift".to_owned());
    }
    if modifiers & FLAG_ALTERNATE != 0 {
        names.push("alt".to_owned());
    }
    if modifiers & FLAG_CONTROL != 0 {
        names.push("ctrl".to_owned());
    }
    assert(names.deep_view() =~= config_names_of(modifiers));
    names
}

/// The modifier names of the table, spelled out character by character.
proof fn lemma_names_spelled()
    ensures
        "cmd"@.len() == 3 && "cmd"@[0] == 'c',
        "command"@.len() == 7 && "command"@[0] == 'c',
        "shift"@.len() == 5 && "shift"@[0] == 's',
        "alt"@.len() == 3 && "alt"@[0] == 'a',
        "option"@.len() == 6 && "option"@[0] == 'o',
        "ctrl"@.len() == 4 && "ctrl"@[0] == 'c',
        "control"@.len() == 7 && "control"@[0] == 'c' && "control"@[2] == 'n',
        "command"@[2] == 'm',
{
    reveal_strlit("cmd");
    reveal_strlit("command");
    reveal_strlit("shift");
    reveal_strlit("alt");
    reveal_strlit("option");
    reveal_strlit("ctrl");
    reveal_strlit("control");
}

/// The mask is made of the bits of the four tracked modifiers, which are four
/// different bits.
pub proof fn lemma_mask_is_all_flags()
    ensures
        MODIFIER_MASK == FLAG_COMMAND | FLAG_SHIFT | FLAG_ALTERNATE | FLAG_CONTROL,
        FLAG_COMMAND & FLAG_SHIFT == 0,
        FLAG_COMMAND & FLAG_ALTERNATE == 0,
        FLAG_COMMAND & FLAG_CONTROL == 0,
        FLAG_SHIFT & FLAG_ALTERNATE == 0,
        FLAG_SHIFT & FLAG_CONTROL == 0,
        FLAG_ALTERNATE & FLAG_CONTROL == 0,
{
    assert(0x001E_0000u64 == 0x0010_0000u64 | 0x0002_0000u64 | 0x0008_0000u64 | 0x0004_0000u64)
        by (bit_vector);
    assert(0x0010_0000u64 & 0x0002_0000u64 == 0) by (bit_vector);
    assert(0x0010_0000u64 & 0x0008_0000u64 == 0) by (bit_vector);
    assert(0x0010_0000u64 & 0x0004_0000u64 == 0) by (bit_vector);
    assert(0x0002_0000u64 & 0x0008_0000u64 == 0) by (bit_vector);
    assert(0x0002_0000u64 & 0x0004_0000u64 == 0) by (bit_vector);
    assert(0x0008_0000u64 & 0x0004_0000u64 == 0) by (bit_vector);
}

/// Whether a bit is the bit of one of the four tracked modifiers.
pub open spec fn is_tracked_flag(flag: u64) -> bool {
    flag == FLAG_COMMAND || flag == FLAG_SHIFT || flag == FLAG_ALTERNATE || flag == FLAG_CONTROL
}

/// The flags of two lists of names, one after the other, are the flags of
/// both lists together.
pub proof fn lemma_flags_of_concat(first: Seq<Seq<char>>, second: Seq<Seq<char>>)
    ensures
        flags_of_names(first + second) == flags_of_names(first) | flags_of_names(second),
    decreases second.len(),
{
    let a = flags_of_names(first);
    if second.len() == 0 {
        assert(first + second =~= first);
        assert(a | 0 == a) by (bit_vector);
    } else {
        let b = flags_of_names(second.drop_last());
        let c = flag_of_name(second.last());
        lemma_flags_of_concat(first, second.drop_last());
        assert((first + second).drop_last() =~= first + second.drop_last());
        assert((first + second).last() == second.last());
        assert((a | b) | c == a | (b | c)) by (bit_vector);
    }
}

/// Names set tracked bits only.
pub proof fn lemma_flags_within_mask(names: Seq<Seq<char>>)
    ensures
        flags_of_names(names) & MODIFIER_MASK == flags_of_names(names),
    decreases names.len(),
{
    if names.len() == 0 {
        assert(0u64 & MODIFIER_MASK == 0u64) by (bit_vector);
    } else {
        let rest = flags_of_names(names.drop_last());
        let flag = flag_of_name(names.last());
        lemma_flags_within_mask(names.drop_last());
        assert(is_tracked_flag(flag) || flag == 0);
        assert((rest | flag) & MODIFIER_MASK == rest | flag) by (bit_vector)
            requires
                rest & MODIFIER_MASK == rest,
                is_tracked_flag(flag) || flag == 0,
        ;
    }
}

/// The bit of a tracked modifier is set exactly when one of the names stands
/// for that modifier.
pub proof fn lemma_flag_set_iff_named(names: Seq<Seq<char>>, flag: u64)
    requires
        is_tracked_flag(flag),
    ensures
        flags_of_names(names) & flag != 0 <==> exists|i: int|
            0 <= i < names.len() && flag_of_name(#[trigger] names[i]) == flag,
    decreases names.len(),
{
    if names.len() == 0 {
        assert(0u64 & flag == 0) by (bit_vector);
    } else {
        let front = names.drop_last();
        let rest = flags_of_names(front);
        let last = flag_of_name(names.last());
        lemma_flag_set_iff_named(front, flag);
        assert(is_tracked_flag(last) || last == 0);
        assert(((rest | last) & flag != 0) <==> (rest & flag != 0 || last == flag)) by (bit_vector)
            requires
                is_tracked_flag(flag),
                is_tracked_flag(last) || last == 0,
        ;
        if rest & flag != 0 {
            let i = choose|i: int| 0 <= i < front.len() && flag_of_name(#[trigger] front[i]) == flag;
            assert(names[i] == front[i]);
        }
        if last == flag {
            assert(flag_of_name(names[names.len() - 1]) == flag);
        }
        if exists|i: int| 0 <= i < names.len() && flag_of_name(#[trigger] names[i]) == flag {
            let i = choose|i: int| 0 <= i < names.len() && flag_of_name(#[trigger] names[i]) == flag;
            if i < front.len() {
                assert(front[i] == names[i]);
            }
        }
    }
}

/// A single name gives the bit of its modifier.
proof fn lemma_flags_of_one(name: Seq<char>)
    ensures
        flags_of_names(seq![name]) == 0u64 | flag_of_name(name),
{
    assert(seq![name].drop_last() =~= Seq::<Seq<char>>::empty());
    assert(flags_of_names(Seq::<Seq<char>>::empty()) == 0);
    assert(seq![name].last() == name);
}

/// Reading back the names that the settings write for a set of flags gives
/// the tracked bits of the flags.
pub proof fn lemma_config_names_round_trip(flags: u64)
    ensures
        flags_of_names(config_names_of(flags)) == flags & MODIFIER_MASK,
{
    lemma_names_spelled();
    let command: Seq<Seq<char>> = if flags & FLAG_COMMAND != 0 {
        seq!["cmd"@]
    } else {
        Seq::empty()
    };
    let shift: Seq<Seq<char>> = if flags & FLAG_SHIFT != 0 {
        seq!["shift"@]
    } else {
        Seq::empty()
    };
    let option: Seq<Seq<char>> = if flags & FLAG_ALTERNATE != 0 {
        seq!["alt"@]
    } else {
        Seq::empty()
    };
    let control: Seq<Seq<char>> = if flags & FLAG_CONTROL != 0 {
        seq!["ctrl"@]
    } else {
        Seq::empty()
    };
    lemma_flags_of_concat(command, shift);
    lemma_flags_of_concat(command + shift, option);
    lemma_flags_of_concat(command + shift + option, control);
    let a = flags_of_names(command);
    let b = flags_of_names(shift);
    let c = flags_of_names(option);
    let d = flags_of_names(control);
    lemma_flags_of_one("cmd"@);
    lemma_flags_of_one("shift"@);
    lemma_flags_of_one("alt"@);
    lemma_flags_of_one("ctrl"@);
    assert(flags_of_names(Seq::<Seq<char>>::empty()) == 0);
    assert(a == if flags & FLAG_COMMAND != 0 { 0u64 | FLAG_COMMAND } else { 0 });
    assert(b == if flags & FLAG_SHIFT != 0 { 0u64 | FLAG_SHIFT } else { 0 });
    assert(c == if flags & FLAG_ALTERNATE != 0 { 0u64 | FLAG_ALTERNATE } else { 0 });
    assert(d == if flags & FLAG_CONTROL != 0 { 0u64 | FLAG_CONTROL } else { 0 });
    assert(((a | b) | c) | d == flags & MODIFIER_MASK) by (bit_vector)
        requires
            a == if flags & FLAG_COMMAND != 0 { 0u64 | FLAG_COMMAND } else { 0 },
            b == if flags & FLAG_SHIFT != 0 { 0u64 | FLAG_SHIFT } else { 0 },
            c == if flags & FLAG_ALTERNATE != 0 { 0u64 | FLAG_ALTERNATE } else { 0 },
            d == if flags & FLAG_CONTROL != 0 { 0u64 | FLAG_CONTROL } else { 0 },
    ;
}

} // verus!
