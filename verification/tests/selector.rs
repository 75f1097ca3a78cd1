use gl_lifecycle::config::{gl_config_picker, GlConfig};
use gl_lifecycle::error::LifecycleError;

fn cfg(samples: u8, transparent: bool, index: usize) -> GlConfig {
    GlConfig { samples, transparent, index }
}

#[test]
fn picker_empty_input_fails() {
    let configs: Vec<GlConfig> = Vec::new();
    assert_eq!(gl_config_picker(&configs), Err(LifecycleError::ConfigSelectionEmpty));
}

#[test]
fn picker_single_config_is_returned() {
    let configs = vec![cfg(4, false, 0)];
    assert_eq!(gl_config_picker(&configs), Ok(cfg(4, false, 0)));
}

#[test]
fn picker_takes_higher_sample_count() {
    let configs = vec![cfg(2, false, 0), cfg(8, false, 1), cfg(4, false, 2)];
    assert_eq!(gl_config_picker(&configs), Ok(cfg(8, false, 1)));
}

#[test]
fn picker_prefers_transparency_over_samples() {
    // The transparent candidate displaces an opaque accumulator even though
    // it has fewer samples.
    let configs = vec![cfg(8, false, 0), cfg(2, true, 1)];
    assert_eq!(gl_config_picker(&configs), Ok(cfg(2, true, 1)));
}

#[test]
fn picker_transparency_is_not_sticky() {
    // A later opaque candidate with a higher sample count displaces the
    // transparent accumulator: the two tests of the fold are independent.
    let configs = vec![cfg(4, false, 0), cfg(2, true, 1), cfg(8, false, 2)];
    assert_eq!(gl_config_picker(&configs), Ok(cfg(8, false, 2)));
}

#[test]
fn picker_keeps_accumulator_on_tie() {
    let configs = vec![cfg(4, false, 0), cfg(4, false, 1), cfg(4, false, 2)];
    assert_eq!(gl_config_picker(&configs), Ok(cfg(4, false, 0)));
}

#[test]
fn picker_is_deterministic() {
    let configs = vec![cfg(0, false, 0), cfg(16, true, 1), cfg(16, false, 2), cfg(1, true, 3)];
    let first = gl_config_picker(&configs);
    let second = gl_config_picker(&configs);
    assert_eq!(first, second);
}

#[test]
fn picker_returns_a_member_of_the_input() {
    let configs = vec![cfg(3, true, 0), cfg(7, false, 1), cfg(7, true, 2), cfg(1, false, 3)];
    let picked = gl_config_picker(&configs).unwrap();
    assert!(configs.contains(&picked));
}
