use rmk_mekk_elek::keystate::KeyShorthand::Kb;
use rmk_mekk_elek::keystate::KeyShorthand::La;
use rmk_mekk_elek::keystate::KeyShorthand::MT;
use rmk_mekk_elek::keystate::Keymap;
use rmk_mekk_elek::keystate::prelude::A;
use rmk_mekk_elek::keystate::prelude::B;
use rmk_mekk_elek::keystate::prelude::C;
use rmk_mekk_elek::keystate::prelude::M;
use rmk_mekk_elek::keystate::prelude::NOP;
use rmk_mekk_elek::keystate::prelude::T;
use rmk_mekk_elek::debounce::SchmittDebouncer;
use rmk_mekk_elek::hid::HidWriteError;
use rmk_mekk_elek::hid::hid_write_error_is_fatal;
use rmk_mekk_elek::matrix::record_row;
use rmk_mekk_elek::report::Report;

#[test]
fn button_round_trip() {
    let table = vec![vec![Kb(A), Kb(B)]];
    let mut keymap = Keymap::new(&table, 1, 1, 1);
    let mut report = Report::new(8);
    let ticks = [
        (vec![false, false], vec![]),
        (vec![true, false], vec![A]),
        (vec![true, true], vec![A, B]),
        (vec![false, true], vec![B]),
        (vec![false, false], vec![]),
    ];
    let mut now: u64 = 0;
    for (presses, expected) in ticks {
        keymap.process(&presses, &mut report, now);
        assert_eq!(report.keys, expected);
        now += 1;
    }
}

#[test]
fn mod_tap_quick_tap() {
    let table = vec![vec![MT(M, T)]];
    let mut keymap = Keymap::new(&table, 2, 4, 6);
    let mut report = Report::new(8);
    let ticks = [
        (true, 0, None),
        (false, 1, Some(T)),
        (false, 2, Some(T)),
        (false, 3, Some(T)),
        (false, 4, Some(T)),
        (false, 5, None),
    ];
    for (pressed, now, expected) in ticks {
        keymap.process(&vec![pressed], &mut report, now);
        match expected {
            Some(k) => assert_eq!(report.keys, vec![k]),
            None => assert_eq!(report.keys, vec![]),
        }
    }
}

#[test]
fn mod_tap_hold_becomes_mod() {
    let table = vec![vec![MT(M, T)]];
    let mut keymap = Keymap::new(&table, 2, 4, 6);
    let mut report = Report::new(8);
    let ticks = [
        (true, 0, None),
        (true, 1, None),
        (true, 2, Some(M)),
        (true, 5, Some(M)),
        (false, 7, None),
    ];
    for (pressed, now, expected) in ticks {
        keymap.process(&vec![pressed], &mut report, now);
        match expected {
            Some(k) => assert_eq!(report.keys, vec![k]),
            None => assert_eq!(report.keys, vec![]),
        }
    }
}

#[test]
fn layer_shift_round_trip() {
    let table = vec![vec![Kb(A), La(1), Kb(NOP)], vec![Kb(B), Kb(NOP), Kb(NOP)]];
    let mut keymap = Keymap::new(&table, 1, 1, 1);
    let mut report = Report::new(8);

    // Press the layer key: layer 1 becomes active.
    keymap.process(&vec![false, true, false], &mut report, 1);
    assert_eq!(report.keys, vec![]);
    assert_eq!(keymap.active_layers(), vec![1]);

    // Press position 0: it now carries layer 1's binding.
    keymap.process(&vec![true, true, false], &mut report, 2);
    assert_eq!(report.keys, vec![B]);

    // Release position 0.
    keymap.process(&vec![false, true, false], &mut report, 3);
    assert_eq!(report.keys, vec![]);

    // Release the layer key: back to layer 0.
    keymap.process(&vec![false, false, false], &mut report, 4);
    assert_eq!(report.keys, vec![]);
    assert_eq!(keymap.active_layers(), vec![]);

    // Press position 0 again: layer 0's binding.
    keymap.process(&vec![true, false, false], &mut report, 5);
    assert_eq!(report.keys, vec![A]);
}

#[test]
fn rollover_overflow_sets_flag() {
    let table = vec![vec![Kb(A), Kb(B), Kb(C)]];
    let mut keymap = Keymap::new(&table, 1, 1, 1);
    let mut report = Report::new(2);
    keymap.process(&vec![true, true, true], &mut report, 1);
    assert_eq!(report.len(), 2);
    assert_eq!(report.keys, vec![A, B]);
    assert!(keymap.flags.rollover);
}

#[test]
fn empty_board_reports_nothing() {
    let table: Vec<Vec<rmk_mekk_elek::keystate::KeyShorthand>> = vec![vec![]];
    let mut keymap = Keymap::new(&table, 1, 1, 1);
    let mut report = Report::new(4);
    keymap.process(&vec![], &mut report, 1);
    assert_eq!(report.len(), 0);
    assert!(!keymap.flags.rollover);
}

#[test]
fn equal_keycodes_both_reported() {
    let table = vec![vec![Kb(A), Kb(A)]];
    let mut keymap = Keymap::new(&table, 1, 1, 1);
    let mut report = Report::new(8);
    keymap.process(&vec![true, true], &mut report, 1);
    assert_eq!(report.keys, vec![A, A]);
}

#[test]
fn report_push_respects_capacity() {
    let mut report = Report::new(2);
    assert!(report.push(A));
    assert!(report.push(B));
    assert!(!report.push(C));
    assert_eq!(report.keys, vec![A, B]);
    report.clear();
    assert_eq!(report.len(), 0);
    assert!(report.push(C));
    assert_eq!(report.keys, vec![C]);
}

#[test]
fn record_row_maps_row_major() {
    let mut keys = vec![false, false, true, true];
    let samples = vec![true, false];
    record_row(&mut keys, 1, 2, &samples, true);
    assert_eq!(keys, vec![false, false, true, false]);

    // Active-low sampling inverts the reading.
    let mut keys = vec![false, false];
    record_row(&mut keys, 0, 2, &samples, false);
    assert_eq!(keys, vec![false, true]);
}

#[test]
fn hid_errors_split_transient_from_fatal() {
    assert!(!hid_write_error_is_fatal(&HidWriteError::WouldBlock));
    assert!(!hid_write_error_is_fatal(&HidWriteError::Duplicate));
    assert!(hid_write_error_is_fatal(&HidWriteError::Transport));
}

#[test]
fn debounced_scan_pipeline() {
    // A bouncy contact: the report shows the key only once the integrator
    // has climbed past the rising threshold, and keeps it briefly after the
    // raw level drops, until the integrator falls below the other one.
    let table = vec![vec![Kb(A)]];
    let mut keymap = Keymap::new(&table, 1, 1, 1);
    let mut debouncer = SchmittDebouncer::new(1, 64, 155, 100);
    let mut report = Report::new(4);

    let raw_trace = [true, false, true, true, true, true];
    let expected = [vec![], vec![], vec![], vec![], vec![A], vec![A]];
    let mut now: u64 = 0;
    for (raw, want) in raw_trace.iter().zip(expected.iter()) {
        let mut presses = vec![*raw];
        debouncer.debounce(&mut presses);
        keymap.process(&presses, &mut report, now);
        assert_eq!(&report.keys, want);
        now += 1;
    }

    // Release: the clean state holds through two low ticks, then drops.
    let expected_release = [vec![A], vec![A], vec![]];
    for want in expected_release.iter() {
        let mut presses = vec![false];
        debouncer.debounce(&mut presses);
        keymap.process(&presses, &mut report, now);
        assert_eq!(&report.keys, want);
        now += 1;
    }
}
