use fmt::color::Black;
use fmt::color::Blue;
use fmt::color::Cyan;
use fmt::color::Green;
use fmt::color::Magenta;
use fmt::color::Red;
use fmt::color::White;
use fmt::color::Yellow;
use fmt::render::Renderable;
use fmt::text::Text;

#[test]
fn black_color() {
    let black = Black(Text::new("Hello World!"));
    assert_eq!(black.to_string(), "\x1b[30mHello World!\x1b[0m");
}

#[test]
fn red_color() {
    let red = Red(Text::new("Hello World!"));
    assert_eq!(red.to_string(), "\x1b[31mHello World!\x1b[0m");
}

#[test]
fn green_color() {
    let green = Green(Text::new("Hello World!"));
    assert_eq!(green.to_string(), "\x1b[32mHello World!\x1b[0m");
}

#[test]
fn yellow_color() {
    let yellow = Yellow(Text::new("Hello World!"));
    assert_eq!(yellow.to_string(), "\x1b[33mHello World!\x1b[0m");
}

#[test]
fn blue_color() {
    let blue = Blue(Text::new("Hello World!"));
    assert_eq!(blue.to_string(), "\x1b[34mHello World!\x1b[0m");
}

#[test]
fn magenta_color() {
    let magenta = Magenta(Text::new("Hello World!"));
    assert_eq!(magenta.to_string(), "\x1b[35mHello World!\x1b[0m");
}

#[test]
fn cyan_color() {
    let cyan = Cyan(Text::new("Hello World!"));
    assert_eq!(cyan.to_string(), "\x1b[36mHello World!\x1b[0m");
}

#[test]
fn white_color() {
    let white = White(Text::new("Hello World!"));
    assert_eq!(white.to_string(), "\x1b[37mHello World!\x1b[0m");
}
