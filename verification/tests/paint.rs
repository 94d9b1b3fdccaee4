use gl_cli::paint::{green, red, yellow};

#[test]
fn green_wraps_text_in_reset_colour_reset() {
    assert_eq!(green("ok"), "\x1b[0m\x1b[32mok\x1b[0m");
}

#[test]
fn red_wraps_text_in_reset_colour_reset() {
    assert_eq!(red("no"), "\x1b[0m\x1b[31mno\x1b[0m");
}

#[test]
fn yellow_wraps_text_in_reset_colour_reset() {
    assert_eq!(yellow("hm"), "\x1b[0m\x1b[33mhm\x1b[0m");
}

#[test]
fn painting_keeps_text_outside_ascii() {
    assert_eq!(green("λ → ∀"), "\x1b[0m\x1b[32mλ → ∀\x1b[0m");
    assert_eq!(red(""), "\x1b[0m\x1b[31m\x1b[0m");
}
