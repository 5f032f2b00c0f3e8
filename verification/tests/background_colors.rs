use apollo_logger::background_colors::BackgroundColors;
use apollo_logger::font_mode::FontMode;
use apollo_logger::foreground_colors::ForegroundColors;

#[test]
fn background_colors_test_black() {
    assert_eq!("\x1B[40m", BackgroundColors::black().to_string());
}

#[test]
fn background_colors_test_red() {
    assert_eq!("\x1B[41m", BackgroundColors::red().to_string());
}

#[test]
fn background_colors_test_green() {
    assert_eq!("\x1B[42m", BackgroundColors::green().to_string());
}

#[test]
fn background_colors_test_yellow() {
    assert_eq!("\x1B[43m", BackgroundColors::yellow().to_string());
}

#[test]
fn background_colors_test_blue() {
    assert_eq!("\x1B[44m", BackgroundColors::blue().to_string());
}

#[test]
fn background_colors_test_magenta() {
    assert_eq!("\x1B[45m", BackgroundColors::magenta().to_string());
}

#[test]
fn background_colors_test_cyan() {
    assert_eq!("\x1B[46m", BackgroundColors::cyan().to_string());
}

#[test]
fn background_colors_test_white() {
    assert_eq!("\x1B[47m", BackgroundColors::white().to_string());
}

#[test]
fn background_colors_test_default() {
    assert_eq!("\x1B[49m", BackgroundColors::default().to_string());
}

#[test]
fn background_colors_test_bright_black() {
    assert_eq!("\x1B[100m", BackgroundColors::bright_black().to_string());
}

#[test]
fn background_colors_test_bright_red() {
    assert_eq!("\x1B[101m", BackgroundColors::bright_red().to_string());
}

#[test]
fn background_colors_test_bright_green() {
    assert_eq!("\x1B[102m", BackgroundColors::bright_green().to_string());
}

#[test]
fn background_colors_test_bright_yellow() {
    assert_eq!("\x1B[103m", BackgroundColors::bright_yellow().to_string());
}

#[test]
fn background_colors_test_bright_blue() {
    assert_eq!("\x1B[104m", BackgroundColors::bright_blue().to_string());
}

#[test]
fn background_colors_test_bright_magenta() {
    assert_eq!("\x1B[105m", BackgroundColors::bright_magenta().to_string());
}

#[test]
fn background_colors_test_bright_cyan() {
    assert_eq!("\x1B[106m", BackgroundColors::bright_cyan().to_string());
}

#[test]
fn background_colors_test_bright_white() {
    assert_eq!("\x1B[107m", BackgroundColors::bright_white().to_string());
}

#[test]
fn test_background_color_add_foreground_color() {
    let background_color = BackgroundColors::red();
    let foreground_color = ForegroundColors::bright_yellow();

    assert_eq!("\x1B[41;93m", background_color + foreground_color);
}

#[test]
fn test_background_color_add_background_color() {
    let background_color_one = BackgroundColors::red();
    let background_color_two = BackgroundColors::bright_yellow();

    assert_eq!("\x1B[41;103m", background_color_one + background_color_two);
}

#[test]
fn test_background_color_add_font_mode() {
    let background_color = BackgroundColors::red();
    let font_mode = FontMode::italic();

    assert_eq!("\x1B[41;3m", background_color + font_mode);
}

#[test]
fn test_background_color_add_string() {
    let background_color = BackgroundColors::red();
    let string = FontMode::italic() + ForegroundColors::bright_blue();

    assert_eq!("\x1B[41;3;94m", background_color + string);
}

#[test]
fn test_string_add_background_color() {
    let string = FontMode::italic() + ForegroundColors::bright_blue();
    let background_color = BackgroundColors::red();

    assert_eq!("\x1B[3;94;41m", string + background_color);
}
