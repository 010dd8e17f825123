use code_tutor_core::errors::ErrorKind;
use code_tutor_core::mcq::{parse_markdown_questions, parse_section};

fn block(number: &str, topic_word: &str) -> String {
    format!(
        "{}. What is a {}?\n   a) first\n   b) second\n   c) third\n   d) fourth\n   **Answer: c**\n",
        number, topic_word
    )
}

#[test]
fn one_block_parses_exactly() {
    let section = block("7", "variable");
    let qs = parse_section(&section, "easy", "beg").unwrap();
    assert_eq!(qs.len(), 1);
    let q = &qs[0];
    assert_eq!(q.number, 7);
    assert_eq!(q.question_text, "What is a variable?");
    assert_eq!(q.option_a, "first");
    assert_eq!(q.option_b, "second");
    assert_eq!(q.option_c, "third");
    assert_eq!(q.option_d, "fourth");
    assert_eq!(q.correct_answer_index, 2);
    assert_eq!(q.difficulty, "easy");
    assert_eq!(q.id_prefix, "beg");
    assert_eq!(q.topic, "variables");
}

#[test]
fn malformed_blocks_are_stepped_over() {
    // The second block is missing its d) line, so only the first and the
    // third parse.
    let section = format!(
        "{}5. Broken one\n   a) x\n   b) y\n   c) z\n   **Answer: a**\n{}",
        block("1", "tuple"),
        block("9", "lambda")
    );
    let qs = parse_section(&section, "hard", "adv").unwrap();
    assert_eq!(qs.len(), 2);
    assert_eq!(qs[0].number, 1);
    assert_eq!(qs[0].topic, "tuples");
    assert_eq!(qs[1].number, 9);
    assert_eq!(qs[1].topic, "lambda");
}

#[test]
fn oversized_question_number_is_an_error() {
    let section = block("99999999999", "tuple");
    match parse_section(&section, "easy", "beg") {
        Err(e) => assert_eq!(e.kind, ErrorKind::InvalidState),
        Ok(_) => panic!("a number beyond the stored column must be refused"),
    }
}

#[test]
fn answer_line_must_name_a_valid_letter() {
    let section =
        "3. Some question\n   a) x\n   b) y\n   c) z\n   d) w\n   **Answer: e**\n".to_string();
    let qs = parse_section(&section, "easy", "beg").unwrap();
    assert!(qs.is_empty());
}

#[test]
fn full_document_parses_by_section() {
    let doc = format!(
        "# Questions\n## BEGINNER QUESTIONS\n{}## INTERMEDIATE QUESTIONS\n{}{}## ADVANCED QUESTIONS\n{}",
        block("1", "variable"),
        block("1", "class"),
        block("2", "generator"),
        block("1", "decorator")
    );
    let qs = parse_markdown_questions(&doc).unwrap();
    assert_eq!(qs.len(), 4);
    assert_eq!(qs[0].difficulty, "easy");
    assert_eq!(qs[0].id_prefix, "beg");
    assert_eq!(qs[0].topic, "variables");
    assert_eq!(qs[1].difficulty, "medium");
    assert_eq!(qs[1].id_prefix, "int");
    assert_eq!(qs[1].topic, "classes");
    assert_eq!(qs[2].difficulty, "medium");
    assert_eq!(qs[2].number, 2);
    assert_eq!(qs[3].difficulty, "hard");
    assert_eq!(qs[3].id_prefix, "adv");
    assert_eq!(qs[3].topic, "decorators");
}

#[test]
fn document_without_sections_yields_nothing() {
    let qs = parse_markdown_questions("no sections in here at all").unwrap();
    assert!(qs.is_empty());
}
