//! The application's keyboard shortcuts.
use vstd::prelude::*;

use crate::model::MenuAction;

verus! {

/// A keyboard shortcut: modifiers, a character key and the action it runs.
#[derive(Clone, Copy, Debug, PartialEq, Eq, Structural)]
pub struct KeyBinding {
    /// Whether Ctrl must be held.
    pub ctrl: bool,
    /// Whether Shift must be held.
    pub shift: bool,
    /// The (unshifted) character key.
    pub key: char,
    /// The action bound to the shortcut.
    pub action: MenuAction,
}

/// Ctrl plus a key.
pub open spec fn ctrl(key: char, action: MenuAction) -> KeyBinding {
    KeyBinding { ctrl: true, shift: false, key, action }
}

/// Ctrl+Shift plus a key.
pub open spec fn ctrl_shift(key: char, action: MenuAction) -> KeyBinding {
    KeyBinding { ctrl: true, shift: true, key, action }
}

/// The shortcut table.
pub open spec fn key_binding_table() -> Seq<KeyBinding> {
    seq![
        ctrl('n', MenuAction::New),
        ctrl('o', MenuAction::Open),
        ctrl('s', MenuAction::Save),
        ctrl_shift('s', MenuAction::SaveAs),
        ctrl('e', MenuAction::ToggleMode),
        ctrl('a', MenuAction::SelectAll),
        ctrl('f', MenuAction::Find),
        ctrl('h', MenuAction::Replace),
        ctrl('z', MenuAction::Undo),
        ctrl_shift('z', MenuAction::Redo),
        ctrl('y', MenuAction::Redo),
        ctrl_shift('h', MenuAction::ToggleHeaderBar),
        // Zoom: cover Ctrl+=, Ctrl++ (Shift+=), numpad +, Ctrl+-, and Ctrl+0.
        ctrl('=', MenuAction::ZoomIn),
        ctrl_shift('=', MenuAction::ZoomIn),
        ctrl('+', MenuAction::ZoomIn),
        ctrl('-', MenuAction::ZoomOut),
        ctrl('0', MenuAction::ZoomReset),
    ]
}

/// The application's keyboard shortcuts, mapped to menu actions.
pub fn key_binds() -> (r: Vec<KeyBinding>)
    ensures
        r@ == key_binding_table(),
{
    let r = vec![
        KeyBinding { ctrl: true, shift: false, key: 'n', action: MenuAction::New },
        KeyBinding { ctrl: true, shift: false, key: 'o', action: MenuAction::Open },
        KeyBinding { ctrl: true, shift: false, key: 's', action: MenuAction::Save },
        KeyBinding { ctrl: true, shift: true, key: 's', action: MenuAction::SaveAs },
        KeyBinding { ctrl: true, shift: false, key: 'e', action: MenuAction::ToggleMode },
        KeyBinding { ctrl: true, shift: false, key: 'a', action: MenuAction::SelectAll },
        KeyBinding { ctrl: true, shift: false, key: 'f', action: MenuAction::Find },
        KeyBinding { ctrl: true, shift: false, key: 'h', action: MenuAction::Replace },
        KeyBinding { ctrl: true, shift: false, key: 'z', action: MenuAction::Undo },
        KeyBinding { ctrl: true, shift: true, key: 'z', action: MenuAction::Redo },
        KeyBinding { ctrl: true, shift: false, key: 'y', action: MenuAction::Redo },
        KeyBinding { ctrl: true, shift: true, key: 'h', action: MenuAction::ToggleHeaderBar },
        KeyBinding { ctrl: true, shift: false, key: '=', action: MenuAction::ZoomIn },
        KeyBinding { ctrl: true, shift: true, key: '=', action: MenuAction::ZoomIn },
        KeyBinding { ctrl: true, shift: false, key: '+', action: MenuAction::ZoomIn },
        KeyBinding { ctrl: true, shift: false, key: '-', action: MenuAction::ZoomOut },
        KeyBinding { ctrl: true, shift: false, key: '0', action: MenuAction::ZoomReset },
    ];
    assert(r@ =~= key_binding_table());
    r
}

/// No two shortcuts share the same keys: every key combination runs at most
/// one action.
pub proof fn law_key_bindings_unambiguous()
    ensures
        forall|i: int, j: int|
            0 <= i < j < key_binding_table().len() ==> {
                let a = #[trigger] key_binding_table()[i];
                let b = #[trigger] key_binding_table()[j];
                !(a.ctrl == b.ctrl && a.shift == b.shift && a.key == b.key)
            },
{
    let t = key_binding_table();
    assert forall|i: int, j: int| 0 <= i < j < t.len() implies {
        let a = #[trigger] t[i];
        let b = #[trigger] t[j];
        !(a.ctrl == b.ctrl && a.shift == b.shift && a.key == b.key)
    } by {
        assert(t[0].key == 'n');
        assert(t[1].key == 'o');
        assert(t[2].key == 's');
        assert(t[3].key == 's');
        assert(t[4].key == 'e');
        assert(t[5].key == 'a');
        assert(t[6].key == 'f');
        assert(t[7].key == 'h');
        assert(t[8].key == 'z');
        assert(t[9].key == 'z');
        assert(t[10].key == 'y');
        assert(t[11].key == 'h');
        assert(t[12].key == '=');
        assert(t[13].key == '=');
        assert(t[14].key == '+');
        assert(t[15].key == '-');
        assert(t[16].key == '0');
    }
}

} // verus!
