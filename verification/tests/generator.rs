use pwgen::generator::{corpus_is_valid, generate_from_draws, word_is_valid, Pwgen};
use pwgen::model::GenerationError;

fn corpus(words: &[&str]) -> Vec<String> {
    words.iter().map(|w| w.to_string()).collect()
}

fn small_corpus() -> Vec<String> {
    corpus(&[
        "cat", "dog", "apple", "sun", "moon", "tree", "fish", "bird", "star", "rock", "leaf",
        "rain", "snow", "wind", "fire", "blue", "green", "red", "gold", "silver",
    ])
}

#[test]
pub fn test() {
    let mut pwgen = Pwgen::new(small_corpus());
    let pwd = pwgen.generate_password(32, 5, 20, true, true);
    assert!(pwd.is_ok());
}

#[test]
fn example_exact() {
    // One word drawn after another, suffix 42: "Cat-dog-42", within 16 chars.
    let words = corpus(&["cat", "dog", "apple"]);
    let draws = vec![0usize, 1];
    let r = generate_from_draws(&words, 16, 2, false, &draws, 42);
    assert_eq!(r, Ok("Cat-dog-42".to_string()));
}

#[test]
fn example_pattern() {
    let words = corpus(&["cat", "dog", "apple"]);
    let draws = vec![0usize, 1];
    let pwd = generate_from_draws(&words, 16, 2, false, &draws, 42).unwrap();
    assert!(pwd.len() <= 16);
    let bytes = pwd.as_bytes();
    assert!(bytes[0].is_ascii_uppercase());
    let parts: Vec<&str> = pwd.split('-').collect();
    assert_eq!(parts.len(), 3);
    assert!(parts[1].bytes().all(|b| b.is_ascii_lowercase()));
    assert_eq!(parts[2].len(), 2);
    assert!(parts[2].bytes().all(|b| b.is_ascii_digit()));
}

#[test]
fn determinism_under_fixed_draws() {
    let words = small_corpus();
    let draws = vec![3usize, 7, 0, 11, 5];
    let a = generate_from_draws(&words, 24, 3, false, &draws, 9);
    let b = generate_from_draws(&words, 24, 3, false, &draws, 9);
    assert_eq!(a, b);
    assert_eq!(a, Ok("Sun-bird-cat-09".to_string()));
}

#[test]
fn rejection_of_long_word_consumes_attempt() {
    // "banana" (6) does not fit a budget of 8; "cat" (3) does.
    let words = corpus(&["cat", "dog", "banana"]);
    let draws = vec![2usize, 0];
    let r = generate_from_draws(&words, 8, 3, false, &draws, 7);
    assert_eq!(r, Ok("Cat-07".to_string()));
}

#[test]
fn boundary_word_exactly_fits() {
    // A word of length max_len - 3 is accepted and fills the whole budget.
    let words = corpus(&["apple"]);
    let draws = vec![0usize];
    let r = generate_from_draws(&words, 8, 3, false, &draws, 7);
    assert_eq!(r, Ok("Apple-07".to_string()));
}

#[test]
fn alliteration_skips_other_letters() {
    // After "sun", "dog" is rejected; "star" shares the first letter.
    let words = corpus(&["sun", "dog", "star"]);
    let draws = vec![0usize, 1, 2];
    let r = generate_from_draws(&words, 20, 2, true, &draws, 33);
    assert_eq!(r, Ok("Sun-star-33".to_string()));
}

#[test]
fn alliteration_holds_on_random_output() {
    let words = corpus(&["sun", "star", "snow", "silver", "dog", "cat", "tree", "gold"]);
    let mut pwgen = Pwgen::new(words);
    for _ in 0..20 {
        let pwd = pwgen.generate_password(28, 3, 1000, true, false).unwrap();
        let parts: Vec<&str> = pwd.split('-').collect();
        let first = parts[0].to_lowercase().chars().next().unwrap();
        for part in &parts[..parts.len() - 1] {
            assert_eq!(part.to_lowercase().chars().next().unwrap(), first);
        }
    }
}

#[test]
fn properties_of_random_output() {
    let words = small_corpus();
    let corpus_words: Vec<String> = words.clone();
    let mut pwgen = Pwgen::new(words);
    for _ in 0..50 {
        let pwd = pwgen.generate_password(20, 3, 1000, false, false).unwrap();
        // Length bound.
        assert!(pwd.len() <= 20);
        let parts: Vec<&str> = pwd.split('-').collect();
        // Word count bound: the final part is the suffix.
        let word_parts = &parts[..parts.len() - 1];
        assert!(1 <= word_parts.len() && word_parts.len() <= 3);
        // Word membership, case-insensitively; capitalization of the first.
        for (k, part) in word_parts.iter().enumerate() {
            let lower = part.to_lowercase();
            assert!(corpus_words.iter().any(|w| *w == lower));
            if k == 0 {
                assert!(part.as_bytes()[0].is_ascii_uppercase());
                assert_eq!(&part[1..], &lower[1..]);
            } else {
                assert_eq!(*part, lower);
            }
        }
        // Suffix: exactly two digits, value in [1, 99].
        let suffix = parts[parts.len() - 1];
        assert_eq!(suffix.len(), 2);
        let value: u32 = suffix.parse().unwrap();
        assert!(1 <= value && value <= 99);
    }
}

#[test]
fn suffix_is_zero_padded() {
    let words = corpus(&["cat"]);
    let draws = vec![0usize];
    let r = generate_from_draws(&words, 10, 1, false, &draws, 1);
    assert_eq!(r, Ok("Cat-01".to_string()));
}

#[test]
fn empty_corpus_is_reported() {
    let words: Vec<String> = Vec::new();
    let r = generate_from_draws(&words, 16, 3, false, &Vec::new(), 5);
    assert_eq!(r, Err(GenerationError::CorpusEmpty));
    let mut pwgen = Pwgen::new(Vec::new());
    let r2 = pwgen.generate_password(16, 3, 1000, false, false);
    assert_eq!(r2, Err(GenerationError::CorpusEmpty));
}

#[test]
fn impossible_corpus_yields_no_words_fit() {
    // Every word is longer than max_len - 3, so no draw is ever accepted.
    let words = corpus(&["verylongword", "anotherlongword"]);
    let mut pwgen = Pwgen::new(words.clone());
    let r = pwgen.generate_password(8, 3, 1000, false, false);
    assert_eq!(r, Err(GenerationError::NoWordsFit));
    let r2 = generate_from_draws(&words, 8, 3, false, &vec![0usize, 1, 0, 1], 44);
    assert_eq!(r2, Err(GenerationError::NoWordsFit));
}

#[test]
fn exhausted_draws_with_no_word_accepted() {
    let words = corpus(&["cat"]);
    let r = generate_from_draws(&words, 16, 3, false, &Vec::new(), 5);
    assert_eq!(r, Err(GenerationError::NoWordsFit));
}

#[test]
fn word_count_stops_accumulation() {
    let words = corpus(&["cat", "dog", "sun"]);
    let draws = vec![0usize, 1, 2];
    let r = generate_from_draws(&words, 28, 2, false, &draws, 55);
    assert_eq!(r, Ok("Cat-dog-55".to_string()));
}

#[test]
fn corpus_validation() {
    assert!(corpus_is_valid(&small_corpus()));
    assert!(word_is_valid(&"cat".to_string()));
    assert!(!word_is_valid(&"".to_string()));
    assert!(!word_is_valid(&"Cat".to_string()));
    assert!(!word_is_valid(&"c4t".to_string()));
    assert!(!corpus_is_valid(&corpus(&["cat", "DOG"])));
}
