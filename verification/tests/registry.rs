use gpio2midi::mapper::PullMode;
use gpio2midi::registry::{ConfigError, Registry, RuntimeControl};

#[test]
fn empty_registry_has_nothing() {
    let reg = Registry::new();
    assert_eq!(reg.len(), 0);
    assert!(reg.get(0).is_none());
    assert!(reg.find_pin(17).is_none());
}

#[test]
fn adds_and_looks_up_controls() {
    let mut reg = Registry::new();
    assert!(reg.add_button(17, 10, PullMode::Up).is_ok());
    assert!(reg.add_encoder(5, 20, false, false, false).is_ok());
    assert_eq!(reg.len(), 2);

    match reg.get(17) {
        Some(RuntimeControl::Button { cc, pull }) => {
            assert_eq!(cc, 10);
            assert_eq!(pull, PullMode::Up);
        }
        other => panic!("expected a button, got {other:?}"),
    }
    match reg.get(5) {
        Some(RuntimeControl::Encoder { cc, relative, state }) => {
            assert_eq!(cc, 20);
            assert!(!relative);
            assert_eq!(state.prev_phase, 0);
            assert_eq!(state.accum, 0);
            assert_eq!(state.value, 64);
        }
        other => panic!("expected an encoder, got {other:?}"),
    }
    assert!(reg.get(6).is_none());
}

#[test]
fn rejects_cc_out_of_range() {
    let mut reg = Registry::new();
    assert_eq!(
        reg.add_button(17, 128, PullMode::Down),
        Err(ConfigError::CcOutOfRange { cc: 128 })
    );
    assert_eq!(
        reg.add_encoder(5, 200, true, false, false),
        Err(ConfigError::CcOutOfRange { cc: 200 })
    );
    assert_eq!(reg.len(), 0);
}

#[test]
fn rejects_primary_pin_collision() {
    let mut reg = Registry::new();
    assert!(reg.add_button(17, 10, PullMode::Up).is_ok());
    assert_eq!(
        reg.add_button(17, 11, PullMode::Down),
        Err(ConfigError::PinCollision { pin: 17 })
    );
    assert_eq!(
        reg.add_encoder(17, 20, false, false, false),
        Err(ConfigError::PinCollision { pin: 17 })
    );
    assert_eq!(reg.len(), 1);
}

#[test]
fn cc_range_is_checked_before_collision() {
    let mut reg = Registry::new();
    assert!(reg.add_button(17, 10, PullMode::Up).is_ok());
    assert_eq!(
        reg.add_button(17, 255, PullMode::Up),
        Err(ConfigError::CcOutOfRange { cc: 255 })
    );
}

#[test]
fn boundary_cc_values_are_accepted() {
    let mut reg = Registry::new();
    assert!(reg.add_button(1, 0, PullMode::Up).is_ok());
    assert!(reg.add_button(2, 127, PullMode::Down).is_ok());
}
