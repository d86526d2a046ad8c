use gpt_pipe::scriptgen::GenError;
use gpt_pipe::scriptgen::extract_script;
use gpt_pipe::scriptgen::join_lines;
use gpt_pipe::scriptgen::question_message;
use gpt_pipe::scriptgen::sample_message;
use gpt_pipe::scriptgen::strip_code_fences;
use gpt_pipe::scriptgen::trim_blanks;

#[test]
fn trim_removes_surrounding_blanks() {
    assert_eq!(trim_blanks("  hi \n"), "hi");
    assert_eq!(trim_blanks("\t\r\n "), "");
    assert_eq!(trim_blanks("x"), "x");
    assert_eq!(trim_blanks(""), "");
    assert_eq!(trim_blanks("a b"), "a b");
}

#[test]
fn trim_removes_every_unicode_whitespace_character() {
    assert_eq!(trim_blanks("\u{0B}x\u{A0}"), "x");
    assert_eq!(trim_blanks("\u{2028}\u{3000}y\u{0C}\u{85}"), "y");
    assert_eq!(trim_blanks("\u{1680}\u{2000}\u{200A}\u{202F}\u{205F}\u{2029}"), "");
    let samples = [
        "\u{0B}code\u{0C}",
        "\u{A0}\u{2007} kept\u{2009}inside \u{3000}",
        "\u{85}",
        "no blanks",
    ];
    for s in samples {
        assert_eq!(trim_blanks(s), s.trim());
    }
}

#[test]
fn fences_are_stripped_from_both_ends() {
    assert_eq!(strip_code_fences("```code```"), "code");
    assert_eq!(strip_code_fences("```js\nconsole.log(1);\n```"), "js\nconsole.log(1);\n");
}

#[test]
fn lone_fences_are_stripped_once() {
    assert_eq!(strip_code_fences("```abc"), "abc");
    assert_eq!(strip_code_fences("abc```"), "abc");
    assert_eq!(strip_code_fences("```"), "");
    assert_eq!(strip_code_fences("``````"), "");
    assert_eq!(strip_code_fences("````"), "`");
}

#[test]
fn unfenced_text_stays_as_it_is() {
    assert_eq!(strip_code_fences("plain"), "plain");
    assert_eq!(strip_code_fences(""), "");
    assert_eq!(strip_code_fences("``"), "``");
    assert_eq!(strip_code_fences("a```b"), "a```b");
}

#[test]
fn extract_takes_the_first_choice_trimmed_and_stripped() {
    let choices = vec!["  ```let x = 1;```  ".to_string(), "ignored".to_string()];
    assert_eq!(extract_script(&choices), Ok("let x = 1;".to_string()));
    let plain = vec!["plain body".to_string()];
    assert_eq!(extract_script(&plain), Ok("plain body".to_string()));
}

#[test]
fn extract_trims_unicode_whitespace_like_the_generator_edges_it() {
    let choices = vec!["\u{0B}x".to_string()];
    assert_eq!(extract_script(&choices), Ok("x".to_string()));
    let fenced = vec!["\u{A0}```let y = 2;```\u{2028}".to_string()];
    assert_eq!(extract_script(&fenced), Ok("let y = 2;".to_string()));
}

#[test]
fn extract_fails_on_an_empty_choice_list() {
    let none: Vec<String> = Vec::new();
    let r = extract_script(&none);
    assert_eq!(r, Err(GenError::EmptyChoices));
    assert_eq!(GenError::EmptyChoices.message(), "no response from the generator");
}

#[test]
fn messages_carry_their_fixed_headers() {
    assert_eq!(sample_message("a\nb"), "S:\na\nb");
    assert_eq!(sample_message(""), "S:\n");
    assert_eq!(question_message("uppercase"), "Q:\nuppercase");
}

#[test]
fn join_places_single_newlines_between_lines() {
    assert_eq!(join_lines(&Vec::new()), "");
    assert_eq!(join_lines(&vec!["a".to_string()]), "a");
    let three = vec!["a".to_string(), "b".to_string(), "c".to_string()];
    assert_eq!(join_lines(&three), "a\nb\nc");
}
