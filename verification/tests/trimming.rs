use catch_input::trim::trim;

#[test]
fn answer_after_a_prompt() {
    assert_eq!(trim("Oatmeal\n"), "Oatmeal");
}

#[test]
fn answer_with_blanks_around_it() {
    assert_eq!(trim("  Water  \n"), "Water");
}

#[test]
fn one_letter_answer() {
    let answer = trim("y\n");
    assert_eq!(answer, "y");
    assert_eq!(answer, String::from("y"));
}

#[test]
fn whitespace_only_line_is_empty() {
    assert_eq!(trim("   \n"), "");
    assert_eq!(trim("\n"), "");
    assert_eq!(trim(" "), "");
    assert_eq!(trim("\t\r\n \t"), "");
}

#[test]
fn empty_line_is_empty() {
    assert_eq!(trim(""), "");
    assert!(trim("").is_empty());
}

#[test]
fn line_without_whitespace_is_kept() {
    assert_eq!(trim("abc"), "abc");
    assert_eq!(trim("x"), "x");
}

#[test]
fn leading_whitespace_alone() {
    assert_eq!(trim(" \t\r\n answer"), "answer");
}

#[test]
fn trailing_whitespace_alone() {
    assert_eq!(trim("answer \t\r\n"), "answer");
}

#[test]
fn carriage_return_and_line_feed() {
    assert_eq!(trim("y\r\n"), "y");
    assert_eq!(trim("\r\nyes\r\n"), "yes");
}

#[test]
fn whitespace_inside_stays() {
    assert_eq!(trim("  a b\tc \r\n"), "a b\tc");
    assert_eq!(trim("two\nlines\n"), "two\nlines");
    assert_eq!(trim(" a  \n  b "), "a  \n  b");
}

#[test]
fn text_of_several_bytes_per_character() {
    assert_eq!(trim(" h\u{e9}llo w\u{f6}rld \n"), "h\u{e9}llo w\u{f6}rld");
    assert_eq!(trim("\t\u{e9}\n"), "\u{e9}");
    assert_eq!(trim("  \u{65e5}\u{672c}\u{8a9e} \u{1f980}  \n"), "\u{65e5}\u{672c}\u{8a9e} \u{1f980}");
}

#[test]
fn other_blanks_are_text() {
    assert_eq!(trim("\u{a0}x\u{a0}\n"), "\u{a0}x\u{a0}");
    assert_eq!(trim(" \u{c}\n"), "\u{c}");
    assert_eq!(trim("\u{3000}\n"), "\u{3000}");
}

#[test]
fn trimming_twice_is_trimming_once() {
    let lines = ["Oatmeal\n", "  Water  \n", "   \n", "", " a b \r\n", "abc", "\t\u{e9}\n"];
    for line in lines {
        let once = trim(line);
        let twice = trim(&once);
        assert_eq!(twice, once);
    }
}

#[test]
fn padding_does_not_change_the_result() {
    let lines = ["Oatmeal", "a b", "", " x ", "\u{e9}"];
    for line in lines {
        let padded = format!(" \t{}\r\n", line);
        assert_eq!(trim(&padded), trim(line));
    }
}

#[test]
fn result_is_a_part_of_the_line() {
    let line = " \t  What's your favorite food?  \r\n";
    let out = trim(line);
    assert_eq!(out, "What's your favorite food?");
    let at = line.find(out.as_str()).unwrap();
    assert_eq!(at, 4);
    assert!(line[..at].chars().all(|c| c == ' ' || c == '\t' || c == '\r' || c == '\n'));
    assert!(line[at + out.len()..].chars().all(|c| c == ' ' || c == '\t' || c == '\r' || c == '\n'));
}

#[test]
fn long_line() {
    let mut line = String::new();
    for _ in 0..1000 {
        line.push(' ');
    }
    for _ in 0..1000 {
        line.push_str("ab ");
    }
    for _ in 0..1000 {
        line.push('\n');
    }
    let out = trim(&line);
    assert_eq!(out.len(), 2999);
    assert!(out.starts_with("ab ab "));
    assert!(out.ends_with(" ab"));
}
