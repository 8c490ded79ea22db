use senscale::config::{basename_of, default_sensitivity, Config, ConfigEntry, Entry};
use senscale::engine::{resolve, Action, Driver, Process, Registry, State};

fn bits(v: f64) -> u64 {
    v.to_bits()
}

fn config(default: f64, entries: &[(&[u8], f64, bool)]) -> Config {
    Config {
        default_sensitivity: bits(default),
        processes: entries
            .iter()
            .map(|(name, sens, gated)| {
                (
                    name.to_vec(),
                    Entry {
                        sensitivity: bits(*sens),
                        only_if_cursor_hidden: *gated,
                    },
                )
            })
            .collect(),
    }
}

#[test]
fn rule_matching() {
    let c = config(1.0, &[(b"a.exe", 2.0, false)]);
    let mut state = State::new(c);

    // A full path matches its basename's entry.
    assert_eq!(
        state.set_focus(b"C:\\a.exe".to_vec()),
        Action::Apply {
            sensitivity: bits(2.0)
        }
    );

    // An unconfigured process falls back to the default.
    assert_eq!(
        state.set_focus(b"b.exe".to_vec()),
        Action::Apply {
            sensitivity: bits(1.0)
        }
    );
}

#[test]
fn full_path_beats_basename() {
    let c = config(1.0, &[(b"a.exe", 2.0, false), (b"C:\\a.exe", 5.0, false)]);
    let mut state = State::new(c);

    // Full-path equality is tried first, even against a later entry.
    assert_eq!(
        state.set_focus(b"C:\\a.exe".to_vec()),
        Action::Apply {
            sensitivity: bits(5.0)
        }
    );
}

#[test]
fn cursor_gated_entry() {
    let c = config(1.0, &[(b"a.exe", 3.0, true)]);
    let mut state = State::new(c);

    // Focusing the gated process with the visibility still unknown asks
    // for a live cursor query; a visible cursor resolves to the default.
    let action = state.set_focus(b"a.exe".to_vec());
    assert!(action.needs_query());
    assert_eq!(action.chosen(false), bits(1.0));
    assert_eq!(action.chosen(true), bits(3.0));

    // Hiding the cursor (no focus change) resolves to the entry.
    assert_eq!(
        state.set_cursor_hidden(true),
        Some(Action::Apply {
            sensitivity: bits(3.0)
        })
    );

    // Showing it again falls back to the default.
    assert_eq!(
        state.set_cursor_hidden(false),
        Some(Action::Apply {
            sensitivity: bits(1.0)
        })
    );
}

#[test]
fn focus_change_resets_cursor_state() {
    let c = config(1.0, &[(b"a.exe", 3.0, true)]);
    let mut state = State::new(c);

    state.set_focus(b"a.exe".to_vec());
    state.set_cursor_hidden(true);

    // Refocusing the same process forgets the visibility: notifications
    // for the new focus may not have fired yet, so the query is needed
    // again.
    let action = state.set_focus(b"a.exe".to_vec());
    assert!(action.needs_query());
}

#[test]
fn visibility_without_focus_is_discarded() {
    let c = config(1.0, &[(b"a.exe", 3.0, true)]);
    let mut state = State::new(c);
    assert_eq!(state.set_cursor_hidden(true), None);
}

#[test]
fn ungated_entry_ignores_cursor() {
    let c = config(1.0, &[(b"a.exe", 2.0, false)]);
    let mut state = State::new(c);

    state.set_focus(b"a.exe".to_vec());
    assert_eq!(
        state.set_cursor_hidden(false),
        Some(Action::Apply {
            sensitivity: bits(2.0)
        })
    );
}

#[test]
fn install_conflict() {
    let mut registry = Registry::new();
    assert!(registry.install(config(1.0, &[(b"a.exe", 2.0, false)])));
    assert!(registry.is_installed());

    // Installing a second engine while one is active fails...
    assert!(!registry.install(config(9.0, &[])));

    // ...and the first remains active and responsive.
    assert_eq!(
        registry.on_focus_changed(b"a.exe".to_vec()),
        Some(Action::Apply {
            sensitivity: bits(2.0)
        })
    );

    // Tearing it down frees the slot for a new one.
    assert!(registry.uninstall().is_some());
    assert!(!registry.is_installed());
    assert!(registry.install(config(9.0, &[])));
}

#[test]
fn registry_without_engine_ignores_events() {
    let mut registry = Registry::new();
    assert_eq!(registry.on_focus_changed(b"a.exe".to_vec()), None);
    assert_eq!(registry.on_cursor_visibility_changed(true), None);
    assert!(!registry.set_config(config(1.0, &[])));
}

#[test]
fn reload_applies_on_next_event() {
    let mut registry = Registry::new();
    assert!(registry.install(config(1.0, &[(b"a.exe", 2.0, false)])));
    registry.on_focus_changed(b"a.exe".to_vec());

    // Swapping the configuration produces no action by itself...
    assert!(registry.set_config(config(1.0, &[(b"a.exe", 4.0, false)])));

    // ...the new rules take effect on the next event.
    assert_eq!(
        registry.on_focus_changed(b"a.exe".to_vec()),
        Some(Action::Apply {
            sensitivity: bits(4.0)
        })
    );
}

#[test]
fn driver_suppresses_repeated_value() {
    let mut driver = Driver::new();
    // The first value always goes through.
    assert!(driver.set_sens(bits(2.0)));
    // The identical value is suppressed.
    assert!(!driver.set_sens(bits(2.0)));
    // A changed value goes through again.
    assert!(driver.set_sens(bits(1.0)));
    assert!(driver.set_sens(bits(2.0)));
}

#[test]
fn basenames() {
    assert_eq!(basename_of(&b"C:\\dir\\a.exe".to_vec()), b"a.exe".to_vec());
    assert_eq!(basename_of(&b"a.exe".to_vec()), b"a.exe".to_vec());
    assert_eq!(basename_of(&b"dir/a.exe".to_vec()), b"a.exe".to_vec());
    assert_eq!(basename_of(&b"dir\\".to_vec()), b"".to_vec());
    assert_eq!(basename_of(&b"".to_vec()), b"".to_vec());
}

#[test]
fn resolve_is_stateless() {
    let c = config(1.0, &[(b"a.exe", 2.0, false)]);
    let p = Process::new(b"C:\\a.exe".to_vec());
    assert_eq!(p.exe(), &b"C:\\a.exe".to_vec());
    assert_eq!(
        resolve(&c, &p),
        Action::Apply {
            sensitivity: bits(2.0)
        }
    );
}

#[test]
fn default_sensitivity_is_one() {
    assert_eq!(default_sensitivity(), 1.0f64.to_bits());
    assert_eq!(Config::default().default_sensitivity, 1.0f64.to_bits());
    assert_eq!(Config::default().processes.len(), 0);
    assert_eq!(
        Entry::default(),
        Entry {
            sensitivity: 1.0f64.to_bits(),
            only_if_cursor_hidden: false
        }
    );
}

#[test]
fn config_entry_forms() {
    assert_eq!(
        Entry::from(ConfigEntry::Short(bits(2.0))),
        Entry {
            sensitivity: bits(2.0),
            only_if_cursor_hidden: false
        }
    );
    let long = Entry {
        sensitivity: bits(2.0),
        only_if_cursor_hidden: true,
    };
    assert_eq!(Entry::from(ConfigEntry::Long(long)), long);
    assert!(Entry {
        sensitivity: bits(2.0),
        only_if_cursor_hidden: false
    }
    .can_be_short());
    assert!(!long.can_be_short());
}

#[test]
fn set_sens_updates_in_place() {
    let mut c = config(1.0, &[(b"a.exe", 2.0, true), (b"b.exe", 4.0, false)]);
    c.set_sens(b"a.exe".to_vec(), bits(7.0));

    // The entry keeps its place and its cursor condition.
    assert_eq!(c.processes.len(), 2);
    assert_eq!(c.processes[0].0, b"a.exe".to_vec());
    assert_eq!(
        c.processes[0].1,
        Entry {
            sensitivity: bits(7.0),
            only_if_cursor_hidden: true
        }
    );
    // Other entries and the default stay untouched.
    assert_eq!(
        c.processes[1].1,
        Entry {
            sensitivity: bits(4.0),
            only_if_cursor_hidden: false
        }
    );
    assert_eq!(c.default_sensitivity, bits(1.0));
}

#[test]
fn set_sens_appends_new_process() {
    let mut c = config(1.0, &[(b"a.exe", 2.0, false)]);
    c.set_sens(b"new.exe".to_vec(), bits(3.0));

    assert_eq!(c.processes.len(), 2);
    assert_eq!(c.processes[1].0, b"new.exe".to_vec());
    assert_eq!(
        c.processes[1].1,
        Entry {
            sensitivity: bits(3.0),
            only_if_cursor_hidden: false
        }
    );
}
