use vstd::prelude::*;

use std::collections::HashMap;

use crate::platform::{Shortcut, ShortcutKey};

verus! {

broadcast use vstd::std_specs::hash::group_hash_axioms;

/// `MOD_ALT` of `RegisterHotKey`.
pub const MOD_ALT: u32 = 0x0001;

/// `MOD_CONTROL` of `RegisterHotKey`.
pub const MOD_CONTROL: u32 = 0x0002;

/// `MOD_SHIFT` of `RegisterHotKey`.
pub const MOD_SHIFT: u32 = 0x0004;

/// `MOD_WIN` of `RegisterHotKey`.
pub const MOD_WIN: u32 = 0x0008;

/// The virtual-key code of F1; F2 to F24 follow it.
pub const VK_F1: u32 = 0x70;

/// The first hotkey identifier that an application may register.
pub const FIRST_REGISTRATION_ID: i32 = 1;

/// The last hotkey identifier that an application may register.
pub const LAST_REGISTRATION_ID: i32 = 0xBFFF;

/// Why a shortcut has no Windows hotkey.
#[derive(Debug, Clone, Copy, PartialEq, Eq, Structural)]
pub enum ShortcutError {
    /// The character has no virtual key that is the same on every keyboard layout.
    LayoutDependentCharacter(char),
    /// Windows has function keys F1 to F24 only.
    FunctionKeyOutOfRange(u8),
}

impl ShortcutError {
    /// A sentence that describes the error for a log or a dialog.
    pub fn message(&self) -> (text: String)
        ensures
            text@ == (match *self {
                ShortcutError::LayoutDependentCharacter(_) =>
                    "character has no layout-independent Windows virtual key"@,
                ShortcutError::FunctionKeyOutOfRange(_) =>
                    "Windows global shortcut function key is outside F1-F24"@,
            }),
    {
        match *self {
            ShortcutError::LayoutDependentCharacter(_) => String::from_str(
                "character has no layout-independent Windows virtual key",
            ),
            ShortcutError::FunctionKeyOutOfRange(_) => String::from_str(
                "Windows global shortcut function key is outside F1-F24",
            ),
        }
    }
}

/// The `RegisterHotKey` modifier flags of a shortcut.
pub open spec fn spec_modifier_flags(shortcut: Shortcut) -> u32 {
    ((if shortcut.modifiers.control { MOD_CONTROL } else { 0 }) + (if shortcut.modifiers.alt {
        MOD_ALT
    } else {
        0
    }) + (if shortcut.modifiers.shift { MOD_SHIFT } else { 0 }) + (if shortcut.modifiers.logo {
        MOD_WIN
    } else {
        0
    })) as u32
}

/// The virtual key of a shortcut's key: a letter's upper-case code, a digit's own code, or
/// the code of function key F1 to F24.
pub open spec fn spec_virtual_key(key: ShortcutKey) -> Result<u32, ShortcutError> {
    match key {
        ShortcutKey::Character(c) => if 'a' <= c <= 'z' {
            Ok((c as u32 - 32) as u32)
        } else if 'A' <= c <= 'Z' || '0' <= c <= '9' {
            Ok(c as u32)
        } else {
            Err(ShortcutError::LayoutDependentCharacter(c))
        },
        ShortcutKey::Function(n) => if 1 <= n <= 24 {
            Ok((VK_F1 + n - 1) as u32)
        } else {
            Err(ShortcutError::FunctionKeyOutOfRange(n))
        },
    }
}

/// The modifier flags and virtual key that register `shortcut` with Windows.
pub fn map_shortcut(shortcut: Shortcut) -> (r: Result<(u32, u32), ShortcutError>)
    ensures
        match spec_virtual_key(shortcut.key) {
            Ok(key) => r == Ok::<(u32, u32), ShortcutError>((spec_modifier_flags(shortcut), key)),
            Err(e) => r == Err::<(u32, u32), ShortcutError>(e),
        },
        r matches Ok((flags, _)) ==> (flags & MOD_CONTROL != 0) == shortcut.modifiers.control
            && (flags & MOD_ALT != 0) == shortcut.modifiers.alt && (flags & MOD_SHIFT != 0)
            == shortcut.modifiers.shift && (flags & MOD_WIN != 0) == shortcut.modifiers.logo,
{
    proof {
        lemma_each_modifier_has_its_own_flag(shortcut);
    }
    let mut modifiers: u32 = 0;
    if shortcut.modifiers.control {
        modifiers = modifiers + MOD_CONTROL;
    }
    if shortcut.modifiers.alt {
        modifiers = modifiers + MOD_ALT;
    }
    if shortcut.modifiers.shift {
        modifiers = modifiers + MOD_SHIFT;
    }
    if shortcut.modifiers.logo {
        modifiers = modifiers + MOD_WIN;
    }
    let virtual_key = match shortcut.key {
        ShortcutKey::Character(c) => {
            if c >= 'a' && c <= 'z' {
                c as u32 - 32
            } else if (c >= 'A' && c <= 'Z') || (c >= '0' && c <= '9') {
                c as u32
            } else {
                return Err(ShortcutError::LayoutDependentCharacter(c));
            }
        },
        ShortcutKey::Function(n) => {
            if n >= 1 && n <= 24 {
                VK_F1 + n as u32 - 1
            } else {
                return Err(ShortcutError::FunctionKeyOutOfRange(n));
            }
        },
    };
    Ok((modifiers, virtual_key))
}

/// Each modifier of a shortcut maps to its own `RegisterHotKey` flag and to no other: the
/// flags hold `MOD_CONTROL` exactly when Ctrl is part of the shortcut, `MOD_ALT` exactly for
/// Alt, `MOD_SHIFT` exactly for Shift and `MOD_WIN` exactly for the Windows key, and nothing
/// else.
pub proof fn lemma_each_modifier_has_its_own_flag(shortcut: Shortcut)
    ensures
        (spec_modifier_flags(shortcut) & MOD_CONTROL != 0) == shortcut.modifiers.control,
        (spec_modifier_flags(shortcut) & MOD_ALT != 0) == shortcut.modifiers.alt,
        (spec_modifier_flags(shortcut) & MOD_SHIFT != 0) == shortcut.modifiers.shift,
        (spec_modifier_flags(shortcut) & MOD_WIN != 0) == shortcut.modifiers.logo,
        spec_modifier_flags(shortcut) & !(MOD_CONTROL | MOD_ALT | MOD_SHIFT | MOD_WIN) == 0,
{
    let c = shortcut.modifiers.control;
    let a = shortcut.modifiers.alt;
    let s = shortcut.modifiers.shift;
    let l = shortcut.modifiers.logo;
    let f = spec_modifier_flags(shortcut);
    assert(f == (if c { 2u32 } else { 0u32 }) + (if a { 1u32 } else { 0u32 }) + (if s { 4u32 } else {
        0u32
    }) + (if l { 8u32 } else { 0u32 }));
    assert({
        &&& (f & 2u32 != 0) == c
        &&& (f & 1u32 != 0) == a
        &&& (f & 4u32 != 0) == s
        &&& (f & 8u32 != 0) == l
        &&& f & !(2u32 | 1u32 | 4u32 | 8u32) == 0
    }) by (bit_vector)
        requires
            f == (if c { 2u32 } else { 0u32 }) + (if a { 1u32 } else { 0u32 }) + (if s { 4u32 } else {
                0u32
            }) + (if l { 8u32 } else { 0u32 }),
    ;
}

/// A letter registers the same hotkey whichever its case.
pub proof fn lemma_letter_case_is_ignored(lower: char, upper: char)
    requires
        'a' <= lower <= 'z',
        upper as int == lower as int - 32,
    ensures
        spec_virtual_key(ShortcutKey::Character(lower)) == spec_virtual_key(
            ShortcutKey::Character(upper),
        ),
        spec_virtual_key(ShortcutKey::Character(upper)) is Ok,
{
}

/// The identifier that follows `id` in the cycle of application hotkey identifiers.
pub open spec fn next_in_cycle(id: int) -> int {
    if id == LAST_REGISTRATION_ID {
        FIRST_REGISTRATION_ID as int
    } else {
        id + 1
    }
}

/// Whether `id` is a hotkey identifier that an application may register.
pub open spec fn registrable(id: int) -> bool {
    FIRST_REGISTRATION_ID <= id <= LAST_REGISTRATION_ID
}

/// Whether `id` comes before `end` when the cycle of identifiers is walked from `start`.
pub open spec fn visited_before(start: int, end: int, id: int) -> bool {
    if start <= end {
        start <= id < end
    } else {
        (start <= id <= LAST_REGISTRATION_ID) || (FIRST_REGISTRATION_ID <= id < end)
    }
}

/// The identifier `steps` places after `start` in the cycle.
spec fn cycle_step(start: int, steps: int) -> int {
    if start + steps <= LAST_REGISTRATION_ID {
        start + steps
    } else {
        start + steps - LAST_REGISTRATION_ID
    }
}

/// Picks a hotkey identifier for a new registration: the first identifier from `start` on,
/// walking the cycle of registrable identifiers, that no live registration in `live` holds.
/// Returns it with the identifier to start from next time, or `None` when every identifier
/// is in use.
pub fn next_registration_id<V>(start: i32, live: &HashMap<i32, V>) -> (r: Option<(i32, i32)>)
    requires
        registrable(start as int),
    ensures
        match r {
            Some((id, next)) => {
                &&& registrable(id as int)
                &&& !live@.contains_key(id)
                &&& forall|other: int| #[trigger]
                    visited_before(start as int, id as int, other) ==> live@.contains_key(other as i32)
                &&& next == next_in_cycle(id as int)
            },
            None => forall|id: int| #[trigger] registrable(id) ==> live@.contains_key(id as i32),
        },
{
    let mut candidate: i32 = start;
    let mut steps: i32 = 0;
    while steps < LAST_REGISTRATION_ID
        invariant
            registrable(start as int),
            0 <= steps <= LAST_REGISTRATION_ID,
            steps < LAST_REGISTRATION_ID ==> candidate == cycle_step(start as int, steps as int),
            forall|j: int|
                0 <= j < steps ==> live@.contains_key(#[trigger] cycle_step(start as int, j) as i32),
        decreases LAST_REGISTRATION_ID - steps,
    {
        if !live.contains_key(&candidate) {
            let next = if candidate == LAST_REGISTRATION_ID {
                FIRST_REGISTRATION_ID
            } else {
                candidate + 1
            };
            proof {
                assert forall|other: int| #[trigger]
                    visited_before(start as int, candidate as int, other) implies live@.contains_key(other as i32) by {
                    let j = if other >= start {
                        other - start
                    } else {
                        other - start + LAST_REGISTRATION_ID
                    };
                    assert(cycle_step(start as int, j) == other);
                    assert(0 <= j < steps);
                }
            }
            return Some((candidate, next));
        }
        candidate = if candidate == LAST_REGISTRATION_ID {
            FIRST_REGISTRATION_ID
        } else {
            candidate + 1
        };
        steps = steps + 1;
    }
    proof {
        assert forall|id: int| #[trigger] registrable(id) implies live@.contains_key(id as i32) by {
            let j = if id >= start {
                id - start
            } else {
                id - start + LAST_REGISTRATION_ID
            };
            assert(cycle_step(start as int, j) == id);
        }
    }
    None
}

} // verus!
