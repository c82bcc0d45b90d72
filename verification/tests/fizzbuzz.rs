use hello_apps::fizzbuzz::{fizzbuzz, fizzbuzz_to, is_divisible_by, Word};

#[test]
fn divisible_by_zero_is_never_true() {
    assert!(!is_divisible_by(0, 0));
    assert!(!is_divisible_by(15, 0));
    assert!(!is_divisible_by(u32::MAX, 0));
}

#[test]
fn divisible_by_nonzero() {
    assert!(is_divisible_by(15, 3));
    assert!(is_divisible_by(15, 5));
    assert!(is_divisible_by(0, 7));
    assert!(!is_divisible_by(16, 3));
    assert!(!is_divisible_by(3, 15));
}

#[test]
fn word_for_single_numbers() {
    assert_eq!(fizzbuzz(1), Word::Number(1));
    assert_eq!(fizzbuzz(3), Word::Fizz);
    assert_eq!(fizzbuzz(5), Word::Buzz);
    assert_eq!(fizzbuzz(15), Word::FizzBuzz);
    assert_eq!(fizzbuzz(30), Word::FizzBuzz);
    assert_eq!(fizzbuzz(0), Word::FizzBuzz);
    // 4294967295 = 3 * 5 * 17 * 257 * 65537
    assert_eq!(fizzbuzz(u32::MAX), Word::FizzBuzz);
    assert_eq!(fizzbuzz(u32::MAX - 1), Word::Number(u32::MAX - 1));
}

fn line(w: &Word) -> String {
    match w {
        Word::Fizz => "fizz".to_string(),
        Word::Buzz => "buzz".to_string(),
        Word::FizzBuzz => "fizzbuzz".to_string(),
        Word::Number(n) => n.to_string(),
    }
}

#[test]
fn first_twenty_lines_as_documented() {
    let expected = [
        "1", "2", "fizz", "4", "buzz", "fizz", "7", "8", "fizz", "buzz", "11", "fizz", "13", "14",
        "fizzbuzz", "16", "17", "fizz", "19", "buzz",
    ];
    let words = fizzbuzz_to(20);
    let lines: Vec<String> = words.iter().map(line).collect();
    assert_eq!(lines, expected);
}

#[test]
fn run_to_zero_is_empty() {
    assert!(fizzbuzz_to(0).is_empty());
}

#[test]
fn run_to_hundred_follows_the_rule() {
    let words = fizzbuzz_to(100);
    assert_eq!(words.len(), 100);
    for (i, w) in words.iter().enumerate() {
        let n = (i + 1) as u32;
        assert_eq!(*w, fizzbuzz(n));
    }
    assert_eq!(words[99], Word::Buzz);
    assert_eq!(words[89], Word::FizzBuzz);
}

#[test]
fn words_repeat_every_fifteen() {
    for n in 1..200u32 {
        match fizzbuzz(n) {
            Word::Number(_) => assert_eq!(fizzbuzz(n + 15), Word::Number(n + 15)),
            w => assert_eq!(fizzbuzz(n + 15), w),
        }
    }
}
