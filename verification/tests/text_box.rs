use dialog_box::compiler::{compile, Style};
use dialog_box::text_box::{CharType, ConfigError, TextBox};
use dialog_box::window::Slot;
use std::collections::VecDeque;

fn events(list: Vec<CharType>) -> VecDeque<CharType> {
    VecDeque::from(list)
}

fn all_plain<const LIMIT: usize>(text: &str) -> Vec<[String; 3]> {
    TextBox::<LIMIT>::with_style(text.to_string(), Style::Plain).unwrap().into_snapshots()
}

fn all_marked<const LIMIT: usize>(text: &str) -> Vec<[String; 3]> {
    TextBox::<LIMIT>::new(text.to_string()).unwrap().into_snapshots()
}

#[test]
fn test_text_box() {
    let mut text_box = TextBox::<3>::new("aaab\ncccdd\ne|f".to_string()).unwrap();

    assert_eq!(text_box.next().unwrap(), &["◆", "", ""]);
    assert_eq!(text_box.next().unwrap(), &["◆a", "", ""]);
    assert_eq!(text_box.next().unwrap(), &["◆aa", "", ""]);
    assert_eq!(text_box.next().unwrap(), &["◆aaa", "", ""]);
    assert_eq!(text_box.next().unwrap(), &["◆aaa", " b", ""]);
    assert_eq!(text_box.next().unwrap(), &["◆aaa", " b", "◆"]);
    assert_eq!(text_box.next().unwrap(), &["◆aaa", " b", "◆c"]);
    assert_eq!(text_box.next().unwrap(), &["◆aaa", " b", "◆cc"]);
    assert_eq!(text_box.next().unwrap(), &["◆aaa", " b", "◆ccc"]);
    assert_eq!(text_box.next().unwrap(), &[" b", "◆ccc", ""]);
    assert_eq!(text_box.next().unwrap(), &[" b", "◆ccc", " d"]);
    assert_eq!(text_box.next().unwrap(), &[" b", "◆ccc", " dd"]);
    assert_eq!(text_box.next().unwrap(), &["◆ccc", " dd", ""]);
    assert_eq!(text_box.next().unwrap(), &["◆ccc", " dd", "◆"]);
    assert_eq!(text_box.next().unwrap(), &["◆ccc", " dd", "◆e"]);
    assert_eq!(text_box.next().unwrap(), &[" dd", "◆e", ""]);
    assert_eq!(text_box.next().unwrap(), &[" dd", "◆e", " f"]);
}

#[test]
fn marked_reveal_ends_after_its_last_character() {
    let mut text_box = TextBox::<3>::new("aaab\ncccdd\ne|f".to_string()).unwrap();
    for _ in 0..17 {
        assert!(text_box.next().is_some());
    }
    assert!(text_box.next().is_none());
    assert!(text_box.next().is_none());
}

#[test]
fn plain_reveal_of_wrapped_and_broken_text() {
    let shown = all_plain::<3>("aaab\ncccdd\ne");
    let expected: Vec<[&str; 3]> = vec![
        ["a", "", ""],
        ["aa", "", ""],
        ["aaa", "", ""],
        ["aaa", "b", ""],
        ["aaa", "b", "c"],
        ["aaa", "b", "cc"],
        ["aaa", "b", "ccc"],
        ["b", "ccc", ""],
        ["b", "ccc", "d"],
        ["b", "ccc", "dd"],
        ["ccc", "dd", ""],
        ["ccc", "dd", "e"],
    ];
    assert_eq!(shown, expected);
    assert_eq!(shown.last().unwrap(), &["ccc", "dd", "e"]);
}

#[test]
fn plain_reveal_stepwise_matches_first_four_snapshots() {
    let text = "aaab\ncccdd\ne".to_string();
    let mut text_box = TextBox::<3>::with_style(text, Style::Plain).unwrap();
    assert_eq!(text_box.next().unwrap(), &["a", "", ""]);
    assert_eq!(text_box.next().unwrap(), &["aa", "", ""]);
    assert_eq!(text_box.next().unwrap(), &["aaa", "", ""]);
    assert_eq!(text_box.next().unwrap(), &["aaa", "b", ""]);
}

#[test]
fn short_plain_text_fills_the_top_line_one_character_per_step() {
    let shown = all_plain::<5>("hello");
    let expected: Vec<[&str; 3]> = vec![
        ["h", "", ""],
        ["he", "", ""],
        ["hel", "", ""],
        ["hell", "", ""],
        ["hello", "", ""],
    ];
    assert_eq!(shown, expected);
}

#[test]
fn short_marked_text_shows_the_speaker_mark_first() {
    let shown = all_marked::<5>("hi");
    let expected: Vec<[&str; 3]> = vec![["◆", "", ""], ["◆h", "", ""], ["◆hi", "", ""]];
    assert_eq!(shown, expected);
}

#[test]
fn text_of_exactly_the_budget_does_not_wrap() {
    assert_eq!(
        compile("abc", 3, Style::Plain).unwrap(),
        events(vec![CharType::Char('a'), CharType::Char('b'), CharType::Char('c')])
    );
    assert_eq!(all_plain::<3>("abc").len(), 3);
}

#[test]
fn full_line_wraps_before_the_next_character() {
    assert_eq!(
        compile("aaab", 3, Style::Marked).unwrap(),
        events(vec![
            CharType::Char('◆'),
            CharType::Char('a'),
            CharType::Char('a'),
            CharType::Char('a'),
            CharType::NewLine,
            CharType::LineHeadSpace,
            CharType::Char('b'),
        ])
    );
    assert_eq!(
        compile("aaab", 3, Style::Plain).unwrap(),
        events(vec![
            CharType::Char('a'),
            CharType::Char('a'),
            CharType::Char('a'),
            CharType::NewLine,
            CharType::Char('b'),
        ])
    );
}

#[test]
fn wrapped_character_counts_as_the_first_of_its_line() {
    assert_eq!(
        compile("abcde", 2, Style::Marked).unwrap(),
        events(vec![
            CharType::Char('◆'),
            CharType::Char('a'),
            CharType::Char('b'),
            CharType::NewLine,
            CharType::LineHeadSpace,
            CharType::Char('c'),
            CharType::Char('d'),
            CharType::NewLine,
            CharType::LineHeadSpace,
            CharType::Char('e'),
        ])
    );
}

#[test]
fn budget_of_one_puts_every_character_on_its_own_line() {
    assert_eq!(
        compile("abc", 1, Style::Plain).unwrap(),
        events(vec![
            CharType::Char('a'),
            CharType::NewLine,
            CharType::Char('b'),
            CharType::NewLine,
            CharType::Char('c'),
        ])
    );
    let shown = all_plain::<1>("abc");
    let expected: Vec<[&str; 3]> = vec![["a", "", ""], ["a", "b", ""], ["a", "b", "c"]];
    assert_eq!(shown, expected);
}

#[test]
fn line_break_resets_the_fill_count() {
    assert_eq!(
        compile("ab\ncd", 2, Style::Marked).unwrap(),
        events(vec![
            CharType::Char('◆'),
            CharType::Char('a'),
            CharType::Char('b'),
            CharType::NewLine,
            CharType::Char('◆'),
            CharType::Char('c'),
            CharType::Char('d'),
        ])
    );
}

#[test]
fn forced_break_wraps_without_using_the_budget() {
    assert_eq!(
        compile("a|bcd", 3, Style::Marked).unwrap(),
        events(vec![
            CharType::Char('◆'),
            CharType::Char('a'),
            CharType::NewLine,
            CharType::LineHeadSpace,
            CharType::Char('b'),
            CharType::Char('c'),
            CharType::Char('d'),
        ])
    );
}

#[test]
fn forced_break_character_is_ordinary_in_plain_style() {
    assert_eq!(
        compile("a|b", 3, Style::Plain).unwrap(),
        events(vec![CharType::Char('a'), CharType::Char('|'), CharType::Char('b')])
    );
}

#[test]
fn control_characters_are_never_shown() {
    let queue = compile("a\nb|c\n|d", 2, Style::Marked).unwrap();
    assert!(!queue.contains(&CharType::Char('\n')));
    assert!(!queue.contains(&CharType::Char('|')));
    let shown = all_marked::<2>("a\nb|c\n|d");
    for window in shown.iter() {
        for line in window.iter() {
            assert!(!line.contains('\n'));
            assert!(!line.contains('|'));
        }
    }
}

#[test]
fn characters_count_by_code_point_not_by_byte() {
    assert_eq!(
        compile("あいう", 2, Style::Plain).unwrap(),
        events(vec![
            CharType::Char('あ'),
            CharType::Char('い'),
            CharType::NewLine,
            CharType::Char('う'),
        ])
    );
    let shown = all_plain::<2>("あいう");
    let expected: Vec<[&str; 3]> = vec![["あ", "", ""], ["あい", "", ""], ["あい", "う", ""]];
    assert_eq!(shown, expected);
}

#[test]
fn line_break_with_room_keeps_the_lines_above() {
    let mut text_box = TextBox::<5>::with_style("ab\ncd\ne".to_string(), Style::Plain).unwrap();
    assert_eq!(text_box.next().unwrap(), &["a", "", ""]);
    assert_eq!(text_box.next().unwrap(), &["ab", "", ""]);
    assert_eq!(text_box.next().unwrap(), &["ab", "c", ""]);
    assert_eq!(text_box.next().unwrap(), &["ab", "cd", ""]);
    assert_eq!(text_box.next().unwrap(), &["ab", "cd", "e"]);
    assert!(text_box.next().is_none());
}

#[test]
fn line_break_in_a_full_window_gives_up_the_top_line() {
    let mut text_box = TextBox::<5>::with_style("ab\ncd\nef\ng".to_string(), Style::Plain).unwrap();
    for _ in 0..6 {
        text_box.next().unwrap();
    }
    assert_eq!(text_box.next().unwrap(), &["cd", "ef", ""]);
    assert_eq!(text_box.next().unwrap(), &["cd", "ef", "g"]);
    assert!(text_box.next().is_none());
}

#[test]
fn snapshot_count_is_visible_events_plus_full_window_breaks() {
    let text = "aaab\ncccdd\ne|f";
    let queue = compile(text, 3, Style::Marked).unwrap();
    let visible = queue.iter().filter(|e| matches!(e, CharType::Char(_))).count();
    let breaks = queue.iter().filter(|e| matches!(e, CharType::NewLine)).count();
    assert_eq!(visible, 14);
    assert_eq!(breaks, 5);
    assert_eq!(all_marked::<3>(text).len(), visible + (breaks - 2));
    assert_eq!(all_marked::<3>(text).len(), 17);

    let short = compile("ab\nc", 3, Style::Plain).unwrap();
    assert_eq!(short.len(), 4);
    assert_eq!(all_plain::<3>("ab\nc").len(), 3);
}

#[test]
fn same_input_gives_the_same_reveal() {
    let text = "aaab\ncccdd\ne|f and so on, line after line";
    let mut first = TextBox::<4>::new(text.to_string()).unwrap();
    let mut second = TextBox::<4>::new(text.to_string()).unwrap();
    loop {
        let left = first.next().cloned();
        let right = second.next().cloned();
        assert_eq!(left, right);
        if left.is_none() {
            break;
        }
    }
    assert_eq!(all_marked::<4>(text), all_marked::<4>(text));
    assert_eq!(compile(text, 4, Style::Marked), compile(text, 4, Style::Marked));
}

#[test]
fn empty_input_shows_only_the_speaker_mark_when_marked() {
    let mut text_box = TextBox::<3>::new(String::new()).unwrap();
    assert_eq!(text_box.next().unwrap(), &["◆", "", ""]);
    assert!(text_box.next().is_none());
    assert_eq!(compile("", 3, Style::Marked).unwrap(), events(vec![CharType::Char('◆')]));
}

#[test]
fn empty_input_shows_nothing_when_plain() {
    let mut text_box = TextBox::<3>::with_style(String::new(), Style::Plain).unwrap();
    assert!(text_box.next().is_none());
    assert!(compile("", 3, Style::Plain).unwrap().is_empty());
    assert!(all_plain::<3>("").is_empty());
}

#[test]
fn zero_budget_is_refused() {
    assert_eq!(TextBox::<0>::new("abc".to_string()).err(), Some(ConfigError::ZeroBudget));
    assert_eq!(
        TextBox::<0>::with_style(String::new(), Style::Plain).err(),
        Some(ConfigError::ZeroBudget)
    );
    assert!(TextBox::<1>::new("abc".to_string()).is_ok());
    assert_eq!(
        ConfigError::ZeroBudget.message(),
        "The line budget must be at least one character"
    );
    assert_eq!(compile("abc", 0, Style::Marked), Err(ConfigError::ZeroBudget));
    assert_eq!(compile("", 0, Style::Plain), Err(ConfigError::ZeroBudget));
}

#[test]
fn no_line_outgrows_the_budget() {
    let text = "The quick brown fox\njumps over|the lazy dog, again and again and again.";
    for window in all_marked::<7>(text) {
        for line in window.iter() {
            assert!(line.chars().count() <= 8);
        }
    }
    for window in all_plain::<7>(text) {
        for line in window.iter() {
            assert!(line.chars().count() <= 7);
        }
    }
    let wrapped = all_marked::<3>("abcdefg");
    assert_eq!(wrapped.last().unwrap(), &["◆abc", " def", " g"]);
}

#[test]
fn trailing_marks_and_breaks_show_nothing_by_themselves() {
    let mut forced = TextBox::<3>::new("a|".to_string()).unwrap();
    assert_eq!(forced.next().unwrap(), &["◆", "", ""]);
    assert_eq!(forced.next().unwrap(), &["◆a", "", ""]);
    assert!(forced.next().is_none());
    assert!(forced.next().is_none());

    let mut broken = TextBox::<3>::with_style("a\n".to_string(), Style::Plain).unwrap();
    assert_eq!(broken.next().unwrap(), &["a", "", ""]);
    assert!(broken.next().is_none());
}

#[test]
fn consecutive_line_breaks_leave_blank_lines() {
    let shown = all_plain::<3>("a\n\n\n\nb");
    let expected: Vec<[&str; 3]> =
        vec![["a", "", ""], ["", "", ""], ["", "", ""], ["", "", "b"]];
    assert_eq!(shown, expected);
}

#[test]
fn consecutive_forced_breaks_each_start_a_marked_line() {
    let shown = all_marked::<3>("a|||b");
    let expected: Vec<[&str; 3]> = vec![
        ["◆", "", ""],
        ["◆a", "", ""],
        [" ", " ", ""],
        [" ", " ", " b"],
    ];
    assert_eq!(shown, expected);
}

#[test]
fn collected_snapshots_are_those_of_stepping() {
    let text = "one two\nthree|four five six";
    let mut stepped = Vec::new();
    let mut text_box = TextBox::<5>::new(text.to_string()).unwrap();
    while let Some(lines) = text_box.next() {
        stepped.push(lines.clone());
    }
    assert_eq!(all_marked::<5>(text), stepped);
    assert!(text_box.into_snapshots().is_empty());
}

#[test]
fn default_box_has_nothing_to_reveal() {
    let mut text_box = TextBox::<3>::default();
    assert!(text_box.next().is_none());
}

#[test]
fn slot_descends_to_the_bottom_and_stays() {
    assert_eq!(Slot::Top.descend(), Slot::Middle);
    assert_eq!(Slot::Middle.descend(), Slot::Bottom);
    assert_eq!(Slot::Bottom.descend(), Slot::Bottom);
    assert!(Style::Marked.is_marked());
    assert!(!Style::Plain.is_marked());
}
