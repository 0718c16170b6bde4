use tavla_api::service::captcha::challenge::{is_valid_hash_format, lower_hex, new_hash, GeneratedChallenge};
use tavla_api::service::captcha::problem::{ArithmeticProblem, CaptchaQuestion, Operator, OPTION_COUNT};
use tavla_api::service::captcha::renderer::{encode_opaque_png, rgb_of_rgba};
use tavla_api::service::captcha::store::{challenge_key, decode_answer, encode_answer, verification_key};
use tavla_api::service::captcha::{
    challenge_dto, invalid_dto, verification_outcome, CaptchaAnswerInputDto, VerificationOutcome, STATUS_INVALID,
    STATUS_VERIFIED,
};

#[test]
fn hash_format_accepts_only_40_lowercase_hex_characters() {
    assert!(is_valid_hash_format("0123456789abcdef0123456789abcdef01234567"));
    assert!(!is_valid_hash_format(""));
    assert!(!is_valid_hash_format(&"a".repeat(39)));
    assert!(!is_valid_hash_format(&"a".repeat(41)));
    assert!(!is_valid_hash_format(&"A".repeat(40)));
    assert!(!is_valid_hash_format(&"g".repeat(40)));
    assert!(!is_valid_hash_format(&format!("{}\n", "a".repeat(39))));
}

#[test]
fn hashes_are_unique() {
    let mut hashes: Vec<String> = (0..50).map(|_| new_hash()).collect();
    for hash in &hashes {
        assert!(is_valid_hash_format(hash));
    }
    hashes.sort_unstable();
    hashes.dedup();
    assert_eq!(hashes.len(), 50);
}

#[test]
fn bytes_are_written_as_two_lowercase_hex_digits_each() {
    assert_eq!(lower_hex(&vec![0x00, 0x0f, 0xa0, 0xff]), "000fa0ff");
    assert_eq!(lower_hex(&vec![]), "");
}

#[test]
fn answer_matches_the_operator() {
    let add = ArithmeticProblem { left: 12, operator: Operator::Add, right: 7 };
    let subtract = ArithmeticProblem { left: 12, operator: Operator::Subtract, right: 7 };
    let multiply = ArithmeticProblem { left: 12, operator: Operator::Multiply, right: 7 };
    assert_eq!(add.answer(), 19);
    assert_eq!(subtract.answer(), 5);
    assert_eq!(multiply.answer(), 84);
}

#[test]
fn question_text_uses_typographic_operators() {
    let subtract = ArithmeticProblem { left: 12, operator: Operator::Subtract, right: 7 };
    let multiply = ArithmeticProblem { left: 3, operator: Operator::Multiply, right: 4 };
    assert_eq!(subtract.question_text(), "12 − 7 = ?");
    assert_eq!(multiply.question_text(), "3 × 4 = ?");
    assert_eq!(ArithmeticProblem { left: 0, operator: Operator::Add, right: 25 }.question_text(), "0 + 25 = ?");
}

#[test]
fn every_problem_has_a_positive_answer_that_fits_in_two_digits() {
    for _ in 0..2000 {
        let answer = ArithmeticProblem::random().answer();
        assert!((1..100).contains(&answer), "answer {answer} out of range");
    }
}

#[test]
fn options_are_four_distinct_values_with_the_answer_at_the_reported_position() {
    for _ in 0..2000 {
        let question = CaptchaQuestion::random();
        assert_eq!(question.option_values.len(), OPTION_COUNT);
        let mut sorted = question.option_values.clone();
        sorted.sort_unstable();
        sorted.dedup();
        assert_eq!(sorted.len(), OPTION_COUNT, "options must be distinct");
        assert!((1..=OPTION_COUNT as u8).contains(&question.correct_answer));
        let marked_option = question.option_values[question.correct_answer as usize - 1];
        assert_eq!(marked_option, question.problem.answer());
    }
}

#[test]
fn the_correct_position_is_spread_over_all_four_slots() {
    let mut seen = [false; OPTION_COUNT];
    for _ in 0..200 {
        seen[CaptchaQuestion::random().correct_answer as usize - 1] = true;
    }
    assert!(seen.iter().all(|slot| *slot));
}

#[test]
fn wrong_answers_lie_near_the_right_one() {
    for _ in 0..500 {
        let question = CaptchaQuestion::random();
        let answer = question.problem.answer() as i64;
        for value in &question.option_values {
            assert!((*value as i64 - answer).abs() <= 9);
        }
    }
}

#[test]
fn challenges_and_verifications_live_under_separate_keys() {
    let hash = "a".repeat(40);
    assert_eq!(challenge_key(&hash), format!("captcha:challenge:{hash}"));
    assert_eq!(verification_key(&hash), format!("captcha:verification:{hash}"));
    assert_ne!(challenge_key(&hash), verification_key(&hash));
}

#[test]
fn a_stored_answer_reads_back() {
    for answer in [1u8, 4, 0, 255] {
        assert_eq!(decode_answer(&encode_answer(answer)), Some(answer));
    }
    assert_eq!(encode_answer(3), "3");
    assert_eq!(decode_answer("256"), None);
    assert_eq!(decode_answer("x"), None);
    assert_eq!(decode_answer("+7"), Some(7));
}

fn answer_input(hash: &str, answer: u8) -> CaptchaAnswerInputDto {
    CaptchaAnswerInputDto { hash: hash.to_string(), answer }
}

#[test]
fn only_the_stored_answer_to_a_well_formed_hash_verifies() {
    let hash = "0123456789abcdef0123456789abcdef01234567";
    match verification_outcome(&answer_input(hash, 3), Some(3), 1_000, 600) {
        VerificationOutcome::Verified(dto) => {
            assert_eq!(dto.status, STATUS_VERIFIED);
            assert_eq!(dto.hash, hash);
            assert_eq!(dto.expires_at, 1_600);
        }
        VerificationOutcome::Invalid => panic!("the right answer verifies"),
    }
    assert!(matches!(verification_outcome(&answer_input(hash, 2), Some(3), 1_000, 600), VerificationOutcome::Invalid));
    assert!(matches!(verification_outcome(&answer_input(hash, 3), None, 1_000, 600), VerificationOutcome::Invalid));
    assert!(matches!(verification_outcome(&answer_input("bad", 3), Some(3), 1_000, 600), VerificationOutcome::Invalid));
    assert_eq!(invalid_dto().status, STATUS_INVALID);
}

#[test]
fn a_challenge_is_sent_with_base64_images() {
    let generated = GeneratedChallenge {
        hash: "h".to_string(),
        question_png: b"Man".to_vec(),
        option_pngs: vec![b"Ma".to_vec(), b"M".to_vec(), vec![], b"hello".to_vec()],
        correct_answer: 2,
    };
    let dto = challenge_dto(&generated);
    assert_eq!(dto.hash, "h");
    assert_eq!(dto.question, "TWFu");
    assert_eq!(dto.answers, vec!["TWE=".to_string(), "TQ==".to_string(), String::new(), "aGVsbG8=".to_string()]);
}

#[test]
fn the_alpha_channel_is_dropped_and_the_image_encoded_as_png() {
    assert_eq!(rgb_of_rgba(&vec![1, 2, 3, 4, 5, 6, 7, 8, 9]), vec![1, 2, 3, 5, 6, 7]);
    let png = encode_opaque_png(2, 1, &vec![255, 0, 0, 255, 0, 255, 0, 255]).expect("encodes");
    assert_eq!(png[..8], [0x89, b'P', b'N', b'G', 0x0D, 0x0A, 0x1A, 0x0A]);
    assert!(encode_opaque_png(2, 2, &vec![0; 8]).is_none());
    assert!(encode_opaque_png(2, 1, &vec![0; 9]).is_some());
    assert!(encode_opaque_png(0, 1, &Vec::new()).is_none());
    assert!(encode_opaque_png(1 << 20, 1 << 20, &Vec::new()).is_none());
}

#[test]
fn every_character_of_questions_and_options_is_in_the_captcha_alphabet() {
    let alphabet: Vec<char> = "0123456789+−×= ?".chars().collect();
    for _ in 0..500 {
        let question = CaptchaQuestion::random();
        assert!(question.problem.question_text().chars().all(|c| alphabet.contains(&c)));
        for value in &question.option_values {
            assert!(tavla_api::utils::text::decimal_string(*value as u64).chars().all(|c| alphabet.contains(&c)));
        }
    }
}

#[test]
fn wrong_answers_are_picked_from_both_sides_of_the_answer() {
    let mut above = false;
    let mut below = false;
    for _ in 0..500 {
        let question = CaptchaQuestion::random();
        let answer = question.problem.answer();
        above |= question.option_values.iter().any(|value| *value > answer);
        below |= question.option_values.iter().any(|value| *value < answer);
    }
    assert!(above && below);
}
