use rmk_mekk_elek::keystate::Key;
use rmk_mekk_elek::keystate::KeyShorthand::Kb;
use rmk_mekk_elek::keystate::KeyShorthand::La;
use rmk_mekk_elek::keystate::KeyShorthand::MT;
use rmk_mekk_elek::keystate::Keymap;
use rmk_mekk_elek::keystate::button::ButtonState;
use rmk_mekk_elek::keystate::button::Pressed;
use rmk_mekk_elek::keystate::prelude::A;
use rmk_mekk_elek::keystate::prelude::B;
use rmk_mekk_elek::keystate::prelude::M;
use rmk_mekk_elek::keystate::prelude::NOP;
use rmk_mekk_elek::keystate::prelude::T;
use rmk_mekk_elek::report::Report;

#[test]
fn simple_keyboard() {
    let table = vec![vec![Kb(A), La(1), MT(M, T)], vec![Kb(B), Kb(NOP), Kb(NOP)]];
    let mut keymap = Keymap::new(&table, 2, 4, 6);
    let mut keys = Report::new(2);
    assert_eq!(keys.keys, vec![]);

    keys.clear();
    keymap.process(&vec![false, false, false], &mut keys, 1);
    assert_eq!(keys.keys, vec![]);
    assert_eq!(keymap.current_layer(0), 0);
    assert_eq!(keymap.machine(0, 0), Key::new(Kb(A)));
    assert_eq!(keymap.machine(0, 1), Key::new(Kb(B)));

    keys.clear();
    keymap.process(&vec![true, false, false], &mut keys, 2);
    assert_eq!(keys.keys, vec![A]);

    keys.clear();
    keymap.process(&vec![true, true, false], &mut keys, 3);
    assert_eq!(keys.keys, vec![A]);

    keys.clear();
    keymap.process(&vec![false, true, false], &mut keys, 4);
    assert_eq!(keys.keys, vec![]);
    assert_eq!(keymap.current_layer(0), 0);
    assert_eq!(keymap.machine(0, 0), Key::new(Kb(A)));
    assert_eq!(keymap.machine(0, 1), Key::new(Kb(B)));

    keys.clear();
    keymap.process(&vec![true, true, false], &mut keys, 5);
    assert_eq!(keys.keys, vec![B]);
    assert_eq!(keymap.current_layer(0), 1);
    assert_eq!(keymap.machine(0, 0), Key::new(Kb(A)));
    assert_eq!(keymap.machine(0, 1), Key::Button(ButtonState::Pressed(Pressed { key: B })));

    keys.clear();
    keymap.process(&vec![true, false, true], &mut keys, 6);
    assert_eq!(keys.keys, vec![B]);

    keys.clear();
    keymap.process(&vec![true, false, true], &mut keys, 7);
    assert_eq!(keys.keys, vec![B]);

    keys.clear();
    keymap.process(&vec![true, false, true], &mut keys, 8);
    assert_eq!(keys.keys, vec![B, M]);
}

#[test]
fn keymap_reports_shape() {
    let table = vec![vec![Kb(A), Kb(B)]];
    let keymap = Keymap::new(&table, 1, 1, 1);
    assert_eq!(keymap.size(), 2);
    assert_eq!(keymap.layer_count(), 1);
    assert_eq!(keymap.active_layers(), vec![]);
    assert!(!keymap.flags.rollover);
}
