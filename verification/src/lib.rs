use vstd::prelude::*;
use vstd::string::*;
use rand::Rng;

verus! {

/// Command-line configuration for the password generator.
pub struct Cli {
    /// Default password length 24
    pub length: usize,
    /// Add digits in password
    pub include_digits: bool,
    /// Add special characters
    pub include_specials: bool,
}

impl Default for Cli {
    fn default() -> (c: Cli)
        ensures
            c.length == 24,
            !c.include_digits,
            !c.include_specials,
    {
        Cli { length: 24, include_digits: false, include_specials: false }
    }
}

/// The one error the generator can report: the character set computed from
/// the configuration has no members, so no character could be sampled.
#[derive(Clone, Copy, Debug, PartialEq, Eq, Structural)]
pub enum PassGenError {
    EmptyAlphabet,
}

/// The uppercase Latin letters, the first class of the alphabet.
pub open spec fn upper_chars() -> Seq<char> {
    "ABCDEFGHIJKLMNOPQRSTUVWXYZ"@
}

/// The lowercase Latin letters, the second class of the alphabet.
pub open spec fn lower_chars() -> Seq<char> {
    "abcdefghijklmnopqrstuvwxyz"@
}

/// The decimal digits, appended when `include_digits` is set.
pub open spec fn digit_chars() -> Seq<char> {
    "0123456789"@
}

/// The special characters, appended when `include_specials` is set.
pub open spec fn special_chars() -> Seq<char> {
    "!@#$%^&*()-_=+[]{}|;:',.<>?/"@
}

/// The alphabet for a pair of flags: uppercase, then lowercase, then the
/// digits if enabled, then the specials if enabled, in that fixed order.
pub open spec fn alphabet_spec(include_digits: bool, include_specials: bool) -> Seq<char> {
    upper_chars() + lower_chars()
        + (if include_digits { digit_chars() } else { Seq::<char>::empty() })
        + (if include_specials { special_chars() } else { Seq::<char>::empty() })
}

/// Relies on rand's `Rng::random_range` over `0..n`: it returns an index
/// drawn uniformly from that range, so strictly below `n`. It panics on an
/// empty range, which the precondition rules out. Nothing more is claimed:
/// the result is random, so two calls on the same `n` may differ.
#[verifier::external_body]
fn random_index(n: usize) -> (r: usize)
    requires
        n >= 1,
    ensures
        r < n,
{
    rand::rng().random_range(0..n)
}

/// Builds the alphabet string for a pair of flags by concatenating the
/// enabled character classes in the fixed order.
fn build_alphabet(include_digits: bool, include_specials: bool) -> (alphabet: String)
    ensures
        alphabet@ == alphabet_spec(include_digits, include_specials),
        alphabet@.len() >= 52,
{
    let mut alphabet = "ABCDEFGHIJKLMNOPQRSTUVWXYZ".to_owned();
    alphabet.append("abcdefghijklmnopqrstuvwxyz");
    if include_digits {
        alphabet.append("0123456789");
    }
    if include_specials {
        alphabet.append("!@#$%^&*()-_=+[]{}|;:',.<>?/");
    }
    proof {
        reveal_strlit("ABCDEFGHIJKLMNOPQRSTUVWXYZ");
        reveal_strlit("abcdefghijklmnopqrstuvwxyz");
        assert(alphabet@ =~= alphabet_spec(include_digits, include_specials));
    }
    alphabet
}

/// Draws `length` characters from `alphabet`, uniformly and with
/// replacement, and concatenates them. An empty alphabet is reported as
/// `EmptyAlphabet` before any sampling; nothing is ever indexed in it.
pub fn sample_password(alphabet: &str, length: usize) -> (result: Result<
    String,
    PassGenError,
>)
    ensures
        result is Err <==> alphabet@.len() == 0,
        result matches Err(e) ==> e == PassGenError::EmptyAlphabet,
        result matches Ok(password) ==> {
            &&& password@.len() == length
            &&& forall|i: int|
                0 <= i < password@.len() ==> alphabet@.contains(#[trigger] password@[i])
        },
{
    let n = alphabet.unicode_len();
    if n == 0 {
        return Err(PassGenError::EmptyAlphabet);
    }
    let mut password = String::new();
    let mut i: usize = 0;
    while i < length
        invariant
            n == alphabet@.len(),
            n >= 1,
            i <= length,
            password@.len() == i,
            forall|j: int| 0 <= j < i ==> alphabet@.contains(#[trigger] password@[j]),
        decreases length - i,
    {
        let idx = random_index(n);
        let piece = alphabet.substring_char(idx, idx + 1);
        proof {
            assert(piece@ =~= seq![alphabet@[idx as int]]);
            assert(alphabet@.contains(alphabet@[idx as int]));
        }
        password.append(piece);
        i = i + 1;
    }
    Ok(password)
}

/// Generates a password of exactly `length` characters, each drawn from the
/// alphabet selected by the two flags. The base letter classes are always
/// included, so the alphabet is never empty and generation cannot fail.
pub fn pass_gen(length: usize, include_digits: bool, include_specials: bool) -> (password:
    String)
    ensures
        password@.len() == length,
        forall|i: int|
            0 <= i < password@.len() ==> alphabet_spec(include_digits, include_specials).contains(
                #[trigger] password@[i],
            ),
{
    let alphabet = build_alphabet(include_digits, include_specials);
    match sample_password(alphabet.as_str(), length) {
        Ok(password) => password,
        Err(_) => vstd::pervasive::unreached(),
    }
}

proof fn lemma_concat_contains(a: Seq<char>, b: Seq<char>, c: char)
    ensures
        (a + b).contains(c) <==> a.contains(c) || b.contains(c),
{
    if (a + b).contains(c) {
        let i = choose|i: int| 0 <= i < (a + b).len() && (a + b)[i] == c;
        if i < a.len() {
            assert(a[i] == c);
        } else {
            assert(b[i - a.len()] == c);
        }
    }
    if a.contains(c) {
        let i = choose|i: int| 0 <= i < a.len() && a[i] == c;
        assert((a + b)[i] == c);
    }
    if b.contains(c) {
        let i = choose|i: int| 0 <= i < b.len() && b[i] == c;
        assert((a + b)[a.len() + i] == c);
    }
}

/// A character belongs to the alphabet for flags `(include_digits,
/// include_specials)` exactly when it is an uppercase or lowercase letter, a
/// digit while digits are enabled, or a special while specials are enabled.
pub proof fn lemma_alphabet_membership(include_digits: bool, include_specials: bool, c: char)
    ensures
        alphabet_spec(include_digits, include_specials).contains(c) <==> {
            ||| upper_chars().contains(c)
            ||| lower_chars().contains(c)
            ||| (include_digits && digit_chars().contains(c))
            ||| (include_specials && special_chars().contains(c))
        },
{
    let digits = if include_digits { digit_chars() } else { Seq::<char>::empty() };
    let specials = if include_specials { special_chars() } else { Seq::<char>::empty() };
    lemma_concat_contains(upper_chars() + lower_chars() + digits, specials, c);
    lemma_concat_contains(upper_chars() + lower_chars(), digits, c);
    lemma_concat_contains(upper_chars(), lower_chars(), c);
}

} // verus!
