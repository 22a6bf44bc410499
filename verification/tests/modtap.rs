use rmk_mekk_elek::keystate::modtap::ModTapConfig;
use rmk_mekk_elek::keystate::modtap::ModTapState;
use rmk_mekk_elek::keystate::prelude::M;
use rmk_mekk_elek::keystate::prelude::T;

#[test]
fn get_keys_modtap_nothing() {
    let mut state = ModTapState::new(M, T);
    let modtap_config = ModTapConfig { mod_timeout: 1, tap_release: 2, tap_repeat: 3 };
    assert_eq!(state.get_key(), None);
    state.modtap_transition(false, 0, &modtap_config);
    assert_eq!(state.get_key(), None);
    state.modtap_transition(false, 1, &modtap_config);
    assert_eq!(state.get_key(), None);
    state.modtap_transition(false, 2, &modtap_config);
    assert_eq!(state.get_key(), None);
    state.modtap_transition(false, 3, &modtap_config);
    assert_eq!(state.get_key(), None);
    state.modtap_transition(false, 4, &modtap_config);
    assert_eq!(state.get_key(), None);
}

#[test]
fn get_keys_modtap_tap() {
    let mut state = ModTapState::new(M, T);
    let modtap_config = ModTapConfig { mod_timeout: 2, tap_release: 4, tap_repeat: 6 };
    assert_eq!(state.get_key(), None);
    state.modtap_transition(true, 0, &modtap_config);
    assert_eq!(state.get_key(), None);
    state.modtap_transition(false, 1, &modtap_config);
    assert_eq!(state.get_key(), Some(T));
    state.modtap_transition(false, 2, &modtap_config);
    assert_eq!(state.get_key(), Some(T));
    state.modtap_transition(false, 3, &modtap_config);
    assert_eq!(state.get_key(), Some(T));
    state.modtap_transition(false, 4, &modtap_config);
    assert_eq!(state.get_key(), Some(T));
    state.modtap_transition(false, 5, &modtap_config);
    assert_eq!(state.get_key(), None);
    for i in 0..modtap_config.tap_repeat {
        state.modtap_transition(false, 6 + i, &modtap_config);
        assert_eq!(state.get_key(), None);
    }
}

#[test]
fn get_keys_modtap_mod() {
    let mut state = ModTapState::new(M, T);
    let modtap_config = ModTapConfig { mod_timeout: 2, tap_release: 4, tap_repeat: 6 };
    assert_eq!(state.get_key(), None);
    state.modtap_transition(true, 0, &modtap_config);
    assert_eq!(state.get_key(), None);
    state.modtap_transition(true, 1, &modtap_config);
    assert_eq!(state.get_key(), None);
    state.modtap_transition(true, 2, &modtap_config);
    assert_eq!(state.get_key(), Some(M));
    state.modtap_transition(true, 3, &modtap_config);
    assert_eq!(state.get_key(), Some(M));
    state.modtap_transition(true, 4, &modtap_config);
    assert_eq!(state.get_key(), Some(M));
    state.modtap_transition(true, 5, &modtap_config);
    assert_eq!(state.get_key(), Some(M));
    state.modtap_transition(true, 6, &modtap_config);
    assert_eq!(state.get_key(), Some(M));
    state.modtap_transition(false, 7, &modtap_config);
    assert_eq!(state.get_key(), None);
    for i in 0..modtap_config.tap_repeat {
        state.modtap_transition(false, 8 + i, &modtap_config);
        assert_eq!(state.get_key(), None);
    }
}

#[test]
fn get_keys_modtap_double_tap_quick() {
    let mut state = ModTapState::new(M, T);
    let modtap_config = ModTapConfig { mod_timeout: 2, tap_release: 4, tap_repeat: 6 };
    assert_eq!(state.get_key(), None);
    state.modtap_transition(true, 0, &modtap_config);
    assert_eq!(state.get_key(), None);
    state.modtap_transition(false, 1, &modtap_config);
    assert_eq!(state.get_key(), Some(T));
    state.modtap_transition(true, 2, &modtap_config);
    assert_eq!(state.get_key(), None);
    for i in 0..modtap_config.tap_repeat {
        state.modtap_transition(true, 3 + i, &modtap_config);
        assert_eq!(state.get_key(), Some(T));
    }
    for i in modtap_config.tap_repeat..2 * modtap_config.tap_repeat {
        state.modtap_transition(false, 3 + i, &modtap_config);
        assert_eq!(state.get_key(), None);
    }
}

#[test]
fn get_keys_modtap_double_tap_slow() {
    let mut state = ModTapState::new(M, T);
    let modtap_config = ModTapConfig { mod_timeout: 2, tap_release: 4, tap_repeat: 6 };
    assert_eq!(state.get_key(), None);
    state.modtap_transition(true, 0, &modtap_config);
    assert_eq!(state.get_key(), None);
    state.modtap_transition(false, 1, &modtap_config);
    assert_eq!(state.get_key(), Some(T));
    state.modtap_transition(false, 2, &modtap_config);
    assert_eq!(state.get_key(), Some(T));
    state.modtap_transition(false, 3, &modtap_config);
    assert_eq!(state.get_key(), Some(T));
    state.modtap_transition(false, 4, &modtap_config);
    assert_eq!(state.get_key(), Some(T));
    state.modtap_transition(false, 5, &modtap_config);
    assert_eq!(state.get_key(), None);
    state.modtap_transition(true, 6, &modtap_config);
    assert_eq!(state.get_key(), Some(T));
    for i in 0..modtap_config.tap_repeat {
        state.modtap_transition(true, 7 + i, &modtap_config);
        assert_eq!(state.get_key(), Some(T));
    }
    for i in modtap_config.tap_repeat..2 * modtap_config.tap_repeat {
        state.modtap_transition(false, 7 + i, &modtap_config);
        assert_eq!(state.get_key(), None);
    }
}

#[test]
fn get_keys_modtap_double_mod() {
    let mut state = ModTapState::new(M, T);
    let modtap_config = ModTapConfig { mod_timeout: 2, tap_release: 4, tap_repeat: 6 };
    assert_eq!(state.get_key(), None);
    state.modtap_transition(true, 0, &modtap_config);
    assert_eq!(state.get_key(), None);
    state.modtap_transition(true, 1, &modtap_config);
    assert_eq!(state.get_key(), None);
    state.modtap_transition(true, 2, &modtap_config);
    assert_eq!(state.get_key(), Some(M));
    state.modtap_transition(true, 3, &modtap_config);
    assert_eq!(state.get_key(), Some(M));
    state.modtap_transition(true, 4, &modtap_config);
    assert_eq!(state.get_key(), Some(M));
    state.modtap_transition(true, 5, &modtap_config);
    assert_eq!(state.get_key(), Some(M));
    state.modtap_transition(true, 6, &modtap_config);
    assert_eq!(state.get_key(), Some(M));
    state.modtap_transition(false, 7, &modtap_config);
    assert_eq!(state.get_key(), None);
    state.modtap_transition(true, 8, &modtap_config);
    assert_eq!(state.get_key(), None);
    state.modtap_transition(true, 9, &modtap_config);
    assert_eq!(state.get_key(), None);
    state.modtap_transition(true, 10, &modtap_config);
    assert_eq!(state.get_key(), Some(M));
    state.modtap_transition(true, 11, &modtap_config);
    assert_eq!(state.get_key(), Some(M));
    state.modtap_transition(true, 12, &modtap_config);
    assert_eq!(state.get_key(), Some(M));
    state.modtap_transition(true, 13, &modtap_config);
    assert_eq!(state.get_key(), Some(M));
    state.modtap_transition(true, 14, &modtap_config);
    assert_eq!(state.get_key(), Some(M));
    for i in 0..modtap_config.tap_repeat {
        state.modtap_transition(false, 15 + i, &modtap_config);
        assert_eq!(state.get_key(), None);
    }
}

#[test]
fn modtap_never_emits_both() {
    // Walk a gesture that visits every state and check that the key on offer
    // is always the hold keycode, the tap keycode, or nothing.
    let mut state = ModTapState::new(M, T);
    let modtap_config = ModTapConfig { mod_timeout: 2, tap_release: 4, tap_repeat: 6 };
    let trace = [
        (true, 0),
        (true, 2),
        (false, 3),
        (true, 4),
        (false, 5),
        (true, 6),
        (false, 20),
        (true, 21),
        (false, 22),
        (false, 40),
    ];
    for (pressed, now) in trace {
        state.modtap_transition(pressed, now, &modtap_config);
        let key = state.get_key();
        assert!(key == None || key == Some(M) || key == Some(T));
    }
}

#[test]
fn modtap_step_is_idempotent_while_held() {
    let modtap_config = ModTapConfig { mod_timeout: 2, tap_release: 4, tap_repeat: 6 };
    let mut once = ModTapState::new(M, T);
    once.modtap_transition(true, 0, &modtap_config);
    let mut twice = once;
    twice.modtap_transition(true, 0, &modtap_config);
    assert_eq!(once, twice);

    once.modtap_transition(true, 2, &modtap_config);
    twice = once;
    twice.modtap_transition(true, 2, &modtap_config);
    assert_eq!(once, twice);

    once.modtap_transition(false, 3, &modtap_config);
    twice = once;
    twice.modtap_transition(false, 3, &modtap_config);
    assert_eq!(once, twice);
}
