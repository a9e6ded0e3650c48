use time_manager::gui::components::{path_display, review_time_parts};

#[test]
fn detail_heading_joins_path_parts() {
    assert_eq!(path_display("main/语言/英语"), "main > 语言 > 英语");
    assert_eq!(path_display("single"), "single");
    assert_eq!(path_display(""), "");
    assert_eq!(path_display("a//b/"), "a >  > b > ");
}

#[test]
fn detail_time_parts_split_minutes() {
    assert_eq!(review_time_parts(3_723_000 + 7_200_000, 90_000), (3, 2, 1));
    assert_eq!(review_time_parts(59_999, 0), (0, 0, 0));
    assert_eq!(review_time_parts(-3_660_000, -60_000), (-1, -1, -1));
}
