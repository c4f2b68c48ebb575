use knock::cache::Cache;
use knock::fingerprint::{fingerprint, to_hex16};

#[test]
fn generate_key_is_deterministic() {
    let a = Cache::generate_key("list files", "macos", "zsh", "standard");
    let b = Cache::generate_key("list files", "macos", "zsh", "standard");
    assert_eq!(a, b);
}

#[test]
fn generate_key_fixture_value_is_stable() {
    let k = Cache::generate_key("list files", "macos", "zsh", "standard");
    assert_eq!(k, "e1bdb246eb88ca16");
}

#[test]
fn changing_the_mode_changes_the_key() {
    let std_key = Cache::generate_key("list files", "macos", "zsh", "standard");
    let verbose_key = Cache::generate_key("list files", "macos", "zsh", "verbose");
    assert_ne!(std_key, verbose_key);
    assert_eq!(verbose_key, "85b7780deb3b5c27");
}

#[test]
fn changing_any_component_changes_the_key() {
    let base = Cache::generate_key("list files", "macos", "zsh", "standard");
    assert_ne!(base, Cache::generate_key("list file", "macos", "zsh", "standard"));
    assert_ne!(base, Cache::generate_key("list files", "linux", "zsh", "standard"));
    assert_ne!(base, Cache::generate_key("list files", "macos", "bash", "standard"));
}

#[test]
fn keys_are_fixed_width_hex() {
    let k = Cache::generate_key("", "", "", "");
    assert_eq!(k.len(), 16);
    assert_eq!(k, "8f3e7418d31fe7b4");
    assert!(k.chars().all(|c| c.is_ascii_hexdigit()));
}

#[test]
fn fingerprint_matches_generate_key() {
    assert_eq!(
        fingerprint("x", "y", "z", "w"),
        Cache::generate_key("x", "y", "z", "w")
    );
}

#[test]
fn hex_rendering_is_fixed_width() {
    assert_eq!(to_hex16(0), "0000000000000000");
    assert_eq!(to_hex16(0xcbf29ce484222325), "cbf29ce484222325");
    assert_eq!(to_hex16(0xdeadbeef), "00000000deadbeef");
}
