use hyprlight::notifier::{
    glyph_count, icon_bucket, icon_path, indicator_bar, notification_content, summary_text,
    NOTIFICATION_ID, NOTIFICATION_TIMEOUT_MS,
};

#[test]
fn icon_bucket_rounds_to_multiple_of_five() {
    assert_eq!(icon_bucket(8), 10);
    assert_eq!(icon_bucket(0), 0);
    assert_eq!(icon_bucket(12), 10);
    assert_eq!(icon_bucket(13), 15);
    assert_eq!(icon_bucket(96), 95);
    assert_eq!(icon_bucket(100), 100);
}

#[test]
fn glyph_count_one_per_started_block_of_fifteen() {
    assert_eq!(glyph_count(0), 0);
    assert_eq!(glyph_count(1), 1);
    assert_eq!(glyph_count(15), 1);
    assert_eq!(glyph_count(16), 2);
    assert_eq!(glyph_count(100), 7);
}

#[test]
fn indicator_bar_repeats_glyph() {
    assert_eq!(indicator_bar(0), "");
    assert_eq!(indicator_bar(1), "•");
    assert_eq!(indicator_bar(100), "•••••••");
}

#[test]
fn summary_combines_percentage_and_bar() {
    assert_eq!(summary_text(96), "96% •••••••");
    assert_eq!(summary_text(0), "0% ");
}

#[test]
fn icon_path_uses_home_and_bucket() {
    assert_eq!(
        icon_path("/home/u", 96),
        "/home/u/.config/dunst/icons/vol/vol-95.svg"
    );
    assert_eq!(
        icon_path("/root", 0),
        "/root/.config/dunst/icons/vol/vol-0.svg"
    );
}

#[test]
fn notification_content_fields() {
    let c = notification_content("intel_backlight", 80, "/home/u");
    assert_eq!(c.summary, "80% ••••••");
    assert_eq!(c.body, "intel_backlight");
    assert_eq!(c.icon, "/home/u/.config/dunst/icons/vol/vol-80.svg");
}

#[test]
fn notification_constants() {
    assert_eq!(NOTIFICATION_ID, 987654321);
    assert_eq!(NOTIFICATION_TIMEOUT_MS, 800);
}
