use apollo_logger::ansi::{combine, decimal_text, strip};
use apollo_logger::background_colors::BackgroundColors;
use apollo_logger::font_mode::FontMode;
use apollo_logger::foreground_colors::ForegroundColors;

#[test]
fn strip_takes_the_wrapper_off_a_sequence() {
    assert_eq!(strip("\x1B[31m"), "31");
    assert_eq!(strip("\x1B[1;2;3m"), "1;2;3");
}

#[test]
fn strip_leaves_a_bare_fragment_as_it_is() {
    assert_eq!(strip("1;2"), "1;2");
    assert_eq!(strip(""), "");
    assert_eq!(strip("4"), "4");
}

#[test]
fn strip_takes_off_either_end_alone() {
    assert_eq!(strip("\x1B[7"), "7");
    assert_eq!(strip("7m"), "7");
    assert_eq!(strip("m"), "");
    assert_eq!(strip("\x1B["), "");
    assert_eq!(strip("\x1B[m"), "");
}

#[test]
fn strip_touches_only_the_two_ends() {
    assert_eq!(strip("\x1B[1m\x1B[2m"), "1m\x1B[2");
    assert_eq!(strip("mmm"), "mm");
    assert_eq!(strip("[1m"), "[1");
    assert_eq!(strip("\x1B1m"), "\x1B1");
}

#[test]
fn strip_counts_characters_not_bytes() {
    assert_eq!(strip("\x1B[é;ü m"), "é;ü ");
    assert_eq!(strip("ém"), "é");
}

#[test]
fn combine_joins_the_parameters_left_to_right() {
    assert_eq!(combine("\x1B[41m", "\x1B[93m"), "\x1B[41;93m");
    assert_eq!(combine("\x1B[93m", "\x1B[41m"), "\x1B[93;41m");
    assert_eq!(combine("\x1B[3;94m", "\x1B[41m"), "\x1B[3;94;41m");
    assert_eq!(combine("\x1B[41m", "\x1B[3;94m"), "\x1B[41;3;94m");
}

#[test]
fn combine_keeps_repeated_and_clashing_parameters() {
    assert_eq!(combine("\x1B[31m", "\x1B[31m"), "\x1B[31;31m");
    assert_eq!(combine("\x1B[31m", "\x1B[32m"), "\x1B[31;32m");
}

#[test]
fn combine_takes_bare_fragments() {
    assert_eq!(combine("1", "2"), "\x1B[1;2m");
    assert_eq!(combine("", ""), "\x1B[;m");
    assert_eq!(combine("\x1B[1m", "38;5;208"), "\x1B[1;38;5;208m");
}

#[test]
fn combine_is_the_same_however_the_pairs_are_formed() {
    let a = "\x1B[1m";
    let b = "\x1B[4m";
    let c = "\x1B[31m";
    let left_first = combine(&combine(a, b), c);
    let right_first = combine(a, &combine(b, c));
    assert_eq!(left_first, "\x1B[1;4;31m");
    assert_eq!(left_first, right_first);
}

#[test]
fn red_background_with_bright_yellow_foreground() {
    assert_eq!(BackgroundColors::red() + ForegroundColors::bright_yellow(), "\x1B[41;93m");
}

#[test]
fn a_chain_keeps_the_order_in_which_it_was_written() {
    let first = FontMode::italic() + ForegroundColors::bright_blue();
    assert_eq!(first, "\x1B[3;94m");
    assert_eq!(first + BackgroundColors::red(), "\x1B[3;94;41m");
    let chain = ForegroundColors::bright_yellow() + FontMode::reset_bold() + FontMode::italic();
    assert_eq!(chain, "\x1B[93;22;3m");
}

#[test]
fn plain_text_stands_on_either_side_of_a_style() {
    assert_eq!(ForegroundColors::red() + String::from("1;4"), "\x1B[31;1;4m");
    assert_eq!(String::from("1;4") + ForegroundColors::red(), "\x1B[1;4;31m");
    assert_eq!(BackgroundColors::blue() + String::from("\x1B[5m"), "\x1B[44;5m");
    assert_eq!(String::from("\x1B[5m") + BackgroundColors::blue(), "\x1B[5;44m");
    assert_eq!(FontMode::bold() + String::from("9"), "\x1B[1;9m");
    assert_eq!(String::from("9") + FontMode::bold(), "\x1B[9;1m");
}

#[test]
fn a_variant_made_by_hand_gives_the_text_it_carries() {
    assert_eq!(ForegroundColors::Red("\x1B[38;5;196m").to_string(), "\x1B[38;5;196m");
    assert_eq!(ForegroundColors::Red("\x1B[38;5;196m").as_str(), "\x1B[38;5;196m");
    assert_eq!(
        ForegroundColors::Red("\x1B[38;5;196m") + FontMode::bold(),
        "\x1B[38;5;196;1m"
    );
}

#[test]
fn as_str_and_to_string_agree() {
    assert_eq!(BackgroundColors::bright_cyan().as_str(), "\x1B[106m");
    assert_eq!(BackgroundColors::bright_cyan().to_string(), "\x1B[106m");
    assert_eq!(FontMode::reset_all().as_str(), "\x1B[0m");
    assert_eq!(ForegroundColors::default().as_str(), "\x1B[39m");
}

#[test]
fn reset_bold_and_reset_dim_share_one_code() {
    assert_eq!(FontMode::reset_bold().to_string(), FontMode::reset_dim().to_string());
    assert!(matches!(FontMode::reset_bold(), FontMode::ResetBold(_)));
    assert!(matches!(FontMode::reset_dim(), FontMode::ResetDim(_)));
}

#[test]
fn decimal_text_writes_base_ten() {
    assert_eq!(decimal_text(0), "0");
    assert_eq!(decimal_text(7), "7");
    assert_eq!(decimal_text(10), "10");
    assert_eq!(decimal_text(107), "107");
    assert_eq!(decimal_text(90210), "90210");
    assert_eq!(decimal_text(u32::MAX), "4294967295");
}
