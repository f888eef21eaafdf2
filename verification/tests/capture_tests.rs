use kcam::capture::capture_dirs;
use kcam::capture::capture_name;
use kcam::capture::capture_step;
use kcam::capture::counter_name;
use kcam::capture::is_taken;
use kcam::capture::next_free_name;
use kcam::capture::stamp_name;
use kcam::capture::CaptureDir;
use kcam::capture::CaptureStep;
use kcam::capture::Stamp;
use kcam::text::push_decimal;
use kcam::text::push_padded;

fn names(list: &[&str]) -> Vec<String> {
    list.iter().map(|n| String::from(*n)).collect()
}

fn dir(base: &str, parts: &[&str]) -> CaptureDir {
    CaptureDir { base: String::from(base), parts: names(parts) }
}

#[test]
fn capture_after_five_images_is_the_sixth() {
    let existing = names(&["img_0.jpg", "img_1.jpg", "img_2.jpg", "img_3.jpg", "img_4.jpg"]);
    let name = next_free_name(&existing);
    assert_eq!(name, "img_5.jpg");
    assert!(!is_taken(&existing, &name));
}

#[test]
fn capture_by_stamp_does_not_hit_numbered_images() {
    let existing = names(&["img_0.jpg", "img_1.jpg", "img_2.jpg", "img_3.jpg", "img_4.jpg"]);
    let stamp = Stamp {
        year: 2024,
        month: 11,
        day: 30,
        hour: 23,
        minute: 59,
        second: 58,
        millisecond: 999,
    };
    let name = stamp_name(&stamp);
    assert_eq!(name, "2024-11-30_23-59-58-999.jpg");
    assert!(!is_taken(&existing, &name));
}

#[test]
fn first_capture_is_number_zero() {
    assert_eq!(next_free_name(&Vec::new()), "img_0.jpg");
    assert_eq!(next_free_name(&names(&["notes.txt", "img_1.jpg"])), "img_0.jpg");
}

#[test]
fn free_name_fills_the_lowest_gap() {
    let existing = names(&["img_2.jpg", "img_0.jpg", "img_1.jpg", "img_4.jpg", "img_00.jpg"]);
    assert_eq!(next_free_name(&existing), "img_3.jpg");
}

#[test]
fn free_name_counts_past_nine() {
    let mut existing = Vec::new();
    for n in 0..=10u64 {
        existing.push(counter_name(n));
    }
    existing.reverse();
    assert_eq!(next_free_name(&existing), "img_11.jpg");
}

#[test]
fn counter_names_in_decimal() {
    assert_eq!(counter_name(0), "img_0.jpg");
    assert_eq!(counter_name(9), "img_9.jpg");
    assert_eq!(counter_name(10), "img_10.jpg");
    assert_eq!(counter_name(1234567890), "img_1234567890.jpg");
    assert_eq!(counter_name(u64::MAX), "img_18446744073709551615.jpg");
}

#[test]
fn stamp_fields_are_padded_to_their_width() {
    let stamp =
        Stamp { year: 2024, month: 3, day: 7, hour: 9, minute: 5, second: 3, millisecond: 42 };
    assert_eq!(stamp_name(&stamp), "2024-03-07_09-05-03-042.jpg");
    let zero = Stamp { year: 0, month: 0, day: 0, hour: 0, minute: 0, second: 0, millisecond: 0 };
    assert_eq!(stamp_name(&zero), "0000-00-00_00-00-00-000.jpg");
    let wide = Stamp {
        year: 12345,
        month: 12,
        day: 31,
        hour: 23,
        minute: 59,
        second: 60,
        millisecond: 1999,
    };
    assert_eq!(stamp_name(&wide), "12345-12-31_23-59-60-1999.jpg");
}

#[test]
fn decimal_text_of_numbers() {
    let mut out = String::from("n=");
    assert_eq!(push_decimal(&mut out, 0), 1);
    assert_eq!(out, "n=0");
    let mut out = String::new();
    assert_eq!(push_decimal(&mut out, 907), 3);
    assert_eq!(out, "907");
    let mut out = String::new();
    assert_eq!(push_decimal(&mut out, u64::MAX), 20);
    assert_eq!(out, "18446744073709551615");
}

#[test]
fn padded_text_of_numbers() {
    let mut out = String::from("x");
    push_padded(&mut out, 7, 3);
    assert_eq!(out, "x007");
    let mut out = String::new();
    push_padded(&mut out, 1234, 2);
    assert_eq!(out, "1234");
    let mut out = String::new();
    push_padded(&mut out, 0, 0);
    assert_eq!(out, "0");
    let mut out = String::new();
    push_padded(&mut out, 5, 1);
    assert_eq!(out, "5");
}

#[test]
fn captures_go_to_the_picture_directory_first() {
    let dirs = capture_dirs(Some(String::from("/home/op/Bilder")), Some(String::from("/home/op")));
    assert_eq!(dirs, vec![dir("/home/op/Bilder", &["kcam"]), dir("", &["kcam"])]);
}

#[test]
fn captures_go_to_pictures_beneath_home_without_a_picture_directory() {
    let dirs = capture_dirs(None, Some(String::from("/home/op")));
    assert_eq!(dirs, vec![dir("/home/op", &["Pictures", "kcam"]), dir("", &["kcam"])]);
}

#[test]
fn captures_go_to_the_working_directory_as_a_last_resort() {
    let dirs = capture_dirs(None, None);
    assert_eq!(dirs, vec![dir("", &["kcam"]), dir("", &["kcam"])]);
}

#[test]
fn capture_tries_each_directory_once() {
    assert_eq!(capture_step(2, None), CaptureStep::Try(0));
    assert_eq!(capture_step(2, Some((0, true))), CaptureStep::Saved(0));
    assert_eq!(capture_step(2, Some((0, false))), CaptureStep::Try(1));
    assert_eq!(capture_step(2, Some((1, true))), CaptureStep::Saved(1));
    assert_eq!(capture_step(2, Some((1, false))), CaptureStep::Failed);
    assert_eq!(capture_step(0, None), CaptureStep::Failed);
    assert_eq!(capture_step(2, Some((usize::MAX, false))), CaptureStep::Failed);
}

#[test]
fn is_taken_compares_whole_names() {
    let existing = names(&["img_1.jpg", "a.jpg"]);
    assert!(is_taken(&existing, &String::from("a.jpg")));
    assert!(!is_taken(&existing, &String::from("img_1")));
    assert!(!is_taken(&existing, &String::from("IMG_1.JPG")));
    assert!(!is_taken(&Vec::new(), &String::from("")));
}

#[test]
fn capture_name_is_the_stamp_name_while_it_is_free() {
    let stamp =
        Stamp { year: 2025, month: 1, day: 2, hour: 3, minute: 4, second: 5, millisecond: 6 };
    let existing = names(&["img_0.jpg", "2025-01-02_03-04-05-007.jpg"]);
    let name = capture_name(&stamp, &existing);
    assert_eq!(name, "2025-01-02_03-04-05-006.jpg");
    assert!(!is_taken(&existing, &name));
}

#[test]
fn capture_name_never_names_an_existing_file() {
    let stamp =
        Stamp { year: 2025, month: 1, day: 2, hour: 3, minute: 4, second: 5, millisecond: 6 };
    let existing = names(&["img_0.jpg", "2025-01-02_03-04-05-006.jpg", "img_1.jpg"]);
    let name = capture_name(&stamp, &existing);
    assert_eq!(name, "img_2.jpg");
    assert!(!is_taken(&existing, &name));
}

#[test]
fn captures_a_millisecond_apart_have_different_names() {
    let first =
        Stamp { year: 2025, month: 6, day: 1, hour: 12, minute: 0, second: 0, millisecond: 999 };
    let mut second = first;
    second.second = 1;
    second.millisecond = 0;
    let mut third = first;
    third.millisecond = 998;
    assert_ne!(stamp_name(&first), stamp_name(&second));
    assert_ne!(stamp_name(&first), stamp_name(&third));
    assert_eq!(stamp_name(&first).len(), 27);
    assert_eq!(stamp_name(&second).len(), 27);
}
