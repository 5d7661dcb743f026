use cartpole::text::{layout_multi, push_decimal, score_text, split_lines_of, PlacedLine};

fn placed(text: &str, x: i32, y: i32) -> PlacedLine {
    PlacedLine { text: text.to_string(), x, y }
}

#[test]
fn text_without_a_separator_is_one_line() {
    assert_eq!(split_lines_of("SCORE: 3"), vec!["SCORE: 3"]);
    assert_eq!(split_lines_of(""), vec![""]);
    assert_eq!(split_lines_of("["), vec!["["]);
    assert_eq!(split_lines_of("]["), vec!["]["]);
    assert_eq!(split_lines_of("[ ]"), vec!["[ ]"]);
}

#[test]
fn a_separator_breaks_the_text_in_two() {
    assert_eq!(split_lines_of("a[]b"), vec!["a", "b"]);
    assert_eq!(split_lines_of("SCORE: 3[]HIGH SCORE: 9"), vec!["SCORE: 3", "HIGH SCORE: 9"]);
}

#[test]
fn separators_at_the_ends_leave_empty_lines() {
    assert_eq!(split_lines_of("[]"), vec!["", ""]);
    assert_eq!(split_lines_of("a[]"), vec!["a", ""]);
    assert_eq!(split_lines_of("[]a"), vec!["", "a"]);
    assert_eq!(split_lines_of("[][]"), vec!["", "", ""]);
}

#[test]
fn brackets_around_a_separator_stay_in_their_lines() {
    assert_eq!(split_lines_of("[[]]"), vec!["[", "]"]);
    assert_eq!(split_lines_of("[[][]]"), vec!["[", "", "]"]);
    assert_eq!(split_lines_of("a][b[]c"), vec!["a][b", "c"]);
}

#[test]
fn lines_may_hold_any_characters() {
    assert_eq!(split_lines_of("é[]ü∂[]🙂"), vec!["é", "ü∂", "🙂"]);
}

#[test]
fn splitting_agrees_with_the_standard_library() {
    for text in ["", "[]", "x[]y[]z", "[[]]", "][", "[][][]", "a[b]c[]d", "é[]ü"] {
        let expected: Vec<String> = text.split("[]").map(|line| line.to_string()).collect();
        assert_eq!(split_lines_of(text), expected);
    }
}

#[test]
fn joining_the_lines_gives_the_text_back() {
    for text in ["", "[]", "x[]y[]z", "[[]]", "][", "[][][]", "a[b]c[]d"] {
        assert_eq!(split_lines_of(text).join("[]"), text);
    }
}

#[test]
fn the_score_display_is_laid_out_on_two_lines() {
    let block = layout_multi("SCORE: 3[]HIGH SCORE: 9", 20, 5, 20, 20);
    assert_eq!(block, Some(vec![placed("SCORE: 3", 20, 20), placed("HIGH SCORE: 9", 20, 45)]));
}

#[test]
fn each_line_lies_one_size_and_spacing_below_the_last() {
    let block = layout_multi("a[]b[]c[]d", 16, 4, -7, 100).unwrap();
    assert_eq!(
        block,
        vec![placed("a", -7, 100), placed("b", -7, 120), placed("c", -7, 140), placed("d", -7, 160)]
    );
}

#[test]
fn negative_spacing_stacks_lines_upwards() {
    let block = layout_multi("a[]b[]c", 10, -30, 0, 0).unwrap();
    assert_eq!(block, vec![placed("a", 0, 0), placed("b", 0, -20), placed("c", 0, -40)]);
}

#[test]
fn a_single_line_is_drawn_at_the_origin() {
    assert_eq!(layout_multi("", 65535, i32::MAX, 3, i32::MAX), Some(vec![placed("", 3, i32::MAX)]));
    assert_eq!(layout_multi("x", 0, i32::MIN, 3, i32::MIN), Some(vec![placed("x", 3, i32::MIN)]));
}

#[test]
fn a_line_past_the_largest_coordinate_has_no_layout() {
    assert_eq!(layout_multi("a[]b", 20, 5, 0, i32::MAX - 24), None);
    assert_eq!(
        layout_multi("a[]b", 20, 5, 0, i32::MAX - 25),
        Some(vec![placed("a", 0, i32::MAX - 25), placed("b", 0, i32::MAX)])
    );
    assert_eq!(layout_multi("a[]b[]c", 20, 5, 0, i32::MAX - 25), None);
    assert_eq!(layout_multi("a[]b", 65535, i32::MAX, 0, 0), None);
}

#[test]
fn a_line_past_the_smallest_coordinate_has_no_layout() {
    assert_eq!(layout_multi("a[]b", 0, -1, 0, i32::MIN), None);
    assert_eq!(
        layout_multi("a[]b", 0, -1, 0, i32::MIN + 1),
        Some(vec![placed("a", 0, i32::MIN + 1), placed("b", 0, i32::MIN)])
    );
}

#[test]
fn numbers_are_written_in_decimal() {
    for (n, expected) in [
        (0u32, "0"),
        (7, "7"),
        (9, "9"),
        (10, "10"),
        (99, "99"),
        (100, "100"),
        (1234567890, "1234567890"),
        (u32::MAX, "4294967295"),
    ] {
        let mut out = String::new();
        push_decimal(&mut out, n);
        assert_eq!(out, expected);
    }
}

#[test]
fn push_decimal_appends_to_what_is_there() {
    let mut out = String::from("n = ");
    push_decimal(&mut out, 42);
    push_decimal(&mut out, 0);
    assert_eq!(out, "n = 420");
}

#[test]
fn the_score_display_names_score_and_high_score() {
    assert_eq!(score_text(0, 0), "SCORE: 0[]HIGH SCORE: 0");
    assert_eq!(score_text(17, 2002), "SCORE: 17[]HIGH SCORE: 2002");
    assert_eq!(score_text(u32::MAX, 10), "SCORE: 4294967295[]HIGH SCORE: 10");
}

#[test]
fn the_score_display_agrees_with_formatting() {
    for (score, high_score) in [(0u32, 0u32), (5, 9), (10, 100), (123, 45678), (u32::MAX, u32::MAX)] {
        assert_eq!(
            score_text(score, high_score),
            format!("SCORE: {}[]HIGH SCORE: {}", score, high_score)
        );
    }
}

#[test]
fn the_score_display_splits_into_its_two_lines() {
    assert_eq!(split_lines_of(&score_text(31, 500)), vec!["SCORE: 31", "HIGH SCORE: 500"]);
}
