use apollo_logger::background_colors::BackgroundColors;
use apollo_logger::font_mode::FontMode;
use apollo_logger::foreground_colors::ForegroundColors;

#[test]
fn foreground_colors_test_black() {
    assert_eq!("\x1B[30m", ForegroundColors::black().to_string());
}

#[test]
fn foreground_colors_test_red() {
    assert_eq!("\x1B[31m", ForegroundColors::red().to_string());
}

#[test]
fn foreground_colors_test_green() {
    assert_eq!("\x1B[32m", ForegroundColors::green().to_string());
}

#[test]
fn foreground_colors_test_yellow() {
    assert_eq!("\x1B[33m", ForegroundColors::yellow().to_string());
}

#[test]
fn foreground_colors_test_blue() {
    assert_eq!("\x1B[34m", ForegroundColors::blue().to_string());
}

#[test]
fn foreground_colors_test_magenta() {
    assert_eq!("\x1B[35m", ForegroundColors::magenta().to_string());
}

#[test]
fn foreground_colors_test_cyan() {
    assert_eq!("\x1B[36m", ForegroundColors::cyan().to_string());
}

#[test]
fn foreground_colors_test_white() {
    assert_eq!("\x1B[37m", ForegroundColors::white().to_string());
}

#[test]
fn foreground_colors_test_default() {
    assert_eq!("\x1B[39m", ForegroundColors::default().to_string());
}

#[test]
fn foreground_colors_test_bright_black() {
    assert_eq!("\x1B[90m", ForegroundColors::bright_black().to_string());
}

#[test]
fn foreground_colors_test_bright_red() {
    assert_eq!("\x1B[91m", ForegroundColors::bright_red().to_string());
}

#[test]
fn foreground_colors_test_bright_green() {
    assert_eq!("\x1B[92m", ForegroundColors::bright_green().to_string());
}

#[test]
fn foreground_colors_test_bright_yellow() {
    assert_eq!("\x1B[93m", ForegroundColors::bright_yellow().to_string());
}

#[test]
fn foreground_colors_test_bright_blue() {
    assert_eq!("\x1B[94m", ForegroundColors::bright_blue().to_string());
}

#[test]
fn foreground_colors_test_bright_magenta() {
    assert_eq!("\x1B[95m", ForegroundColors::bright_magenta().to_string());
}

#[test]
fn foreground_colors_test_bright_cyan() {
    assert_eq!("\x1B[96m", ForegroundColors::bright_cyan().to_string());
}

#[test]
fn foreground_colors_test_bright_white() {
    assert_eq!("\x1B[97m", ForegroundColors::bright_white().to_string());
}

#[test]
fn test_foreground_color_add_foreground_color() {
    let foreground_color_one = ForegroundColors::cyan();
    let foreground_color_two = ForegroundColors::magenta();

    assert_eq!("\x1B[36;35m", foreground_color_one + foreground_color_two);
}

#[test]
fn test_foreground_color_add_background_color() {
    let foreground_color = ForegroundColors::cyan();
    let background_color = BackgroundColors::magenta();

    assert_eq!("\x1B[36;45m", foreground_color + background_color);
}

#[test]
fn test_foreground_color_add_font_mode() {
    let foreground_color = ForegroundColors::cyan();
    let font_mode = FontMode::underline();

    assert_eq!("\x1B[36;4m", foreground_color + font_mode);
}

#[test]
fn test_foreground_color_add_string() {
    let foreground_color = ForegroundColors::cyan();
    let string = BackgroundColors::black() + FontMode::strikethrough();

    assert_eq!("\x1B[36;40;9m", foreground_color + string);
}

#[test]
fn test_string_add_foreground_color() {
    let string = BackgroundColors::black() + FontMode::strikethrough();
    let foreground_color = ForegroundColors::cyan();

    assert_eq!("\x1B[40;9;36m", string + foreground_color);
}
