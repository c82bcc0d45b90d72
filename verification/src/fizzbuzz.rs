//! FizzBuzz: the word said for each number, and the run of words from 1 to n.
use vstd::prelude::*;

verus! {

/// Whether `rhs` divides `lhs`; zero divides nothing.
pub open spec fn divides(lhs: int, rhs: int) -> bool {
    rhs != 0 && lhs % rhs == 0
}

/// What is said for one number.
#[derive(Debug, Clone, Copy, PartialEq, Eq, Structural)]
pub enum Word {
    Fizz,
    Buzz,
    FizzBuzz,
    Number(u32),
}

/// The word for `n`: multiples of 15 are "fizzbuzz", other multiples of 3
/// are "fizz", other multiples of 5 are "buzz", and the rest are the number.
pub open spec fn word_for(n: u32) -> Word {
    if divides(n as int, 15) {
        Word::FizzBuzz
    } else if divides(n as int, 3) {
        Word::Fizz
    } else if divides(n as int, 5) {
        Word::Buzz
    } else {
        Word::Number(n)
    }
}

/// The words for 1, 2, ..., n in order.
pub open spec fn words_up_to(n: u32) -> Seq<Word> {
    Seq::new(n as nat, |i: int| word_for((i + 1) as u32))
}

/// Returns whether `lhs` is a multiple of `rhs`. A zero `rhs` divides nothing.
pub fn is_divisible_by(lhs: u32, rhs: u32) -> (r: bool)
    ensures
        r == divides(lhs as int, rhs as int),
        rhs == 0 ==> !r,
{
    if rhs == 0 {
        return false;
    }
    lhs % rhs == 0
}

/// The word said for `n`.
pub fn fizzbuzz(n: u32) -> (w: Word)
    ensures
        w == word_for(n),
{
    if is_divisible_by(n, 15) {
        Word::FizzBuzz
    } else if is_divisible_by(n, 3) {
        Word::Fizz
    } else if is_divisible_by(n, 5) {
        Word::Buzz
    } else {
        Word::Number(n)
    }
}

/// The words said for 1 up to and including `n`, in order.
pub fn fizzbuzz_to(n: u32) -> (words: Vec<Word>)
    ensures
        words@ == words_up_to(n),
{
    let mut words: Vec<Word> = Vec::new();
    let mut i: u32 = 0;
    while i < n
        invariant
            i <= n,
            words@ == words_up_to(i),
        decreases n - i,
    {
        let w = fizzbuzz(i + 1);
        words.push(w);
        i = i + 1;
        assert(words@ =~= words_up_to(i));
    }
    words
}

/// Classic FizzBuzz rule: "fizzbuzz" exactly for the numbers divisible by
/// both 3 and 5, "fizz" for those divisible by 3 but not 5, "buzz" for those
/// divisible by 5 but not 3, and the number itself for all others.
pub proof fn lemma_fizzbuzz_classic(n: u32)
    ensures
        (word_for(n) == Word::FizzBuzz) <==> (n % 3 == 0 && n % 5 == 0),
        (word_for(n) == Word::Fizz) <==> (n % 3 == 0 && n % 5 != 0),
        (word_for(n) == Word::Buzz) <==> (n % 3 != 0 && n % 5 == 0),
        (word_for(n) == Word::Number(n)) <==> (n % 3 != 0 && n % 5 != 0),
{
    let k: int = n as int;
    assert((k % 15 == 0) <==> (k % 3 == 0 && k % 5 == 0)) by (nonlinear_arith)
        requires
            k >= 0,
    {
        if k % 15 == 0 {
            let q = k / 15;
            assert(k == 15 * q);
            assert(k == 3 * (5 * q));
            assert(k == 5 * (3 * q));
        }
        if k % 3 == 0 && k % 5 == 0 {
            let a = k / 3;
            assert(k == 3 * a);
            assert((3 * a) % 5 == 0);
            assert(a % 5 == 0);
            let b = a / 5;
            assert(k == 15 * b);
        }
    }
}

/// The run up to `m` is the beginning of the run up to any larger `n`.
pub proof fn lemma_fizzbuzz_to_prefix(m: u32, n: u32)
    requires
        m <= n,
    ensures
        words_up_to(n).subrange(0, m as int) == words_up_to(m),
{
    assert(words_up_to(n).subrange(0, m as int) =~= words_up_to(m));
}

/// The words repeat every fifteen numbers: the word for `n + 15` is the word
/// for `n`, except that a plain number is replaced by the new number.
pub proof fn lemma_fizzbuzz_period(n: u32)
    requires
        n + 15 <= u32::MAX,
    ensures
        word_for(n) is Number ==> word_for((n + 15) as u32) == Word::Number((n + 15) as u32),
        !(word_for(n) is Number) ==> word_for((n + 15) as u32) == word_for(n),
{
    let k: int = n as int;
    assert((k + 15) % 15 == k % 15);
    assert((k + 15) % 3 == k % 3);
    assert((k + 15) % 5 == k % 5);
}

/// The run up to `n` has exactly `n` words, and the word at index `i` is said
/// for the number `i + 1`: "fizzbuzz" exactly when 3 and 5 both divide
/// `i + 1`, "fizz" when only 3 does, "buzz" when only 5 does, and otherwise
/// the number `i + 1` itself.
pub proof fn lemma_fizzbuzz_to_words(n: u32, i: int)
    requires
        0 <= i < n,
    ensures
        words_up_to(n).len() == n,
        (words_up_to(n)[i] == Word::FizzBuzz) <==> ((i + 1) % 3 == 0 && (i + 1) % 5 == 0),
        (words_up_to(n)[i] == Word::Fizz) <==> ((i + 1) % 3 == 0 && (i + 1) % 5 != 0),
        (words_up_to(n)[i] == Word::Buzz) <==> ((i + 1) % 3 != 0 && (i + 1) % 5 == 0),
        (words_up_to(n)[i] is Number) <==> ((i + 1) % 3 != 0 && (i + 1) % 5 != 0),
        words_up_to(n)[i] is Number ==> words_up_to(n)[i]->Number_0 == i + 1,
{
    lemma_fizzbuzz_classic((i + 1) as u32);
}

} // verus!
