use unyo::info_widget::format_time;
use unyo::ui_renderer::{AvailableFonts, FontSize, USize};
use unyo::weather_widget::WeatherImage;

#[test]
fn size_parts() {
    let s = USize::from((1920, 1080));
    assert_eq!(s.one(), 1920);
    assert_eq!(s.two(), 1080);
}

#[test]
fn font_paths_and_sizes() {
    assert_eq!(AvailableFonts::Roboto.to_path(), "/home/jasper/res/Roboto-Medium.ttf");
    assert_eq!(AvailableFonts::JetbrainsMono.to_path(), "/home/jasper/res/JetBrainsMono-Medium.ttf");
    assert_eq!(FontSize::SuperLarge.base_size(), 160);
    assert_eq!(FontSize::MediumM.base_size(), 40);
    assert_eq!(FontSize::Small.base_size(), 20);
}

#[test]
fn weather_image_paths() {
    assert_eq!(WeatherImage::Sun.to_path(), "/home/jasper/res/sun.png");
    assert_eq!(WeatherImage::Cloud.to_path(), "/home/jasper/res/cloudy.png");
}

#[test]
fn durations_as_minutes_and_seconds() {
    assert_eq!(format_time(0), "0:00");
    assert_eq!(format_time(59), "0:59");
    assert_eq!(format_time(187), "3:07");
    assert_eq!(format_time(7500), "125:00");
    assert_eq!(format_time(200000 / 1000), "3:20");
}
