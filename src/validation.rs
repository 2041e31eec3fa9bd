//! Rules that raw values must pass to become domain values, and the reasons
//! they are refused for.
use vstd::prelude::*;
use vstd::string::StrSliceExecFns;
use vstd::string::StringExecFns;

verus! {

/// Why a raw value was refused.
#[derive(Debug, PartialEq, Eq)]
pub enum ValidationError {
    /// Fewer characters than the rule's minimum.
    TooShort { min: usize },
    /// More characters than the rule's maximum.
    TooLong { max: usize },
    /// A character outside ASCII.
    NotAscii,
    /// Not an email address; the message says what is wrong with it.
    InvalidEmail { message: String },
    /// No alphabetic character.
    NoLetter,
    /// No numeric character.
    NoDigit,
    /// No ASCII punctuation character.
    NoSpecialCharacter,
}

/// The character of a decimal digit.
pub open spec fn digit_char(d: nat) -> char {
    seq!['0', '1', '2', '3', '4', '5', '6', '7', '8', '9'][d as int]
}

/// Decimal notation of `n`, without leading zeros.
pub open spec fn decimal(n: nat) -> Seq<char>
    decreases n,
{
    if n < 10 {
        seq![digit_char(n)]
    } else {
        decimal(n / 10) + seq![digit_char(n % 10)]
    }
}

/// The stable reason text of each refusal.
pub open spec fn message_of(e: ValidationError) -> Seq<char> {
    match e {
        ValidationError::TooShort { min } => "length is lower than "@ + decimal(min as nat),
        ValidationError::TooLong { max } => "length is greater than "@ + decimal(max as nat),
        ValidationError::NotAscii => "not ascii"@,
        ValidationError::InvalidEmail { message } => message@,
        ValidationError::NoLetter => "didn't contains a letter"@,
        ValidationError::NoDigit => "didn't contains a digit"@,
        ValidationError::NoSpecialCharacter => "didn't contains a special character"@,
    }
}

fn digit_str(d: usize) -> (r: &'static str)
    requires
        d < 10,
    ensures
        r@ == seq![digit_char(d as nat)],
{
    proof {
        reveal_strlit("0");
        reveal_strlit("1");
        reveal_strlit("2");
        reveal_strlit("3");
        reveal_strlit("4");
        reveal_strlit("5");
        reveal_strlit("6");
        reveal_strlit("7");
        reveal_strlit("8");
        reveal_strlit("9");
    }
    match d {
        0 => "0",
        1 => "1",
        2 => "2",
        3 => "3",
        4 => "4",
        5 => "5",
        6 => "6",
        7 => "7",
        8 => "8",
        _ => "9",
    }
}

/// Writes `n` in decimal notation.
pub fn decimal_string(n: usize) -> (r: String)
    ensures
        r@ == decimal(n as nat),
    decreases n,
{
    if n < 10 {
        String::from_str(digit_str(n))
    } else {
        let mut s = decimal_string(n / 10);
        s.append(digit_str(n % 10));
        s
    }
}

impl ValidationError {
    /// The reason text of this refusal.
    pub fn to_string(&self) -> (r: String)
        ensures
            r@ == message_of(*self),
    {
        match self {
            ValidationError::TooShort { min } => {
                let mut s = String::from_str("length is lower than ");
                s.append(decimal_string(*min).as_str());
                s
            },
            ValidationError::TooLong { max } => {
                let mut s = String::from_str("length is greater than ");
                s.append(decimal_string(*max).as_str());
                s
            },
            ValidationError::NotAscii => String::from_str("not ascii"),
            ValidationError::InvalidEmail { message } => message.clone(),
            ValidationError::NoLetter => String::from_str("didn't contains a letter"),
            ValidationError::NoDigit => String::from_str("didn't contains a digit"),
            ValidationError::NoSpecialCharacter => String::from_str(
                "didn't contains a special character",
            ),
        }
    }
}

/// Verdict of a length rule on a value of `len` characters.
pub open spec fn length_verdict(len: nat, min: usize, max: usize) -> Result<(), ValidationError> {
    if len < min {
        Err(ValidationError::TooShort { min })
    } else if len > max {
        Err(ValidationError::TooLong { max })
    } else {
        Ok(())
    }
}

/// Accepts a value of `min` to `max` characters.
pub fn check_length(value: &str, min: usize, max: usize) -> (r: Result<(), ValidationError>)
    ensures
        r == length_verdict(value@.len(), min, max),
{
    let len = value.unicode_len();
    if len < min {
        Err(ValidationError::TooShort { min })
    } else if len > max {
        Err(ValidationError::TooLong { max })
    } else {
        Ok(())
    }
}

/// Verdict of the ASCII rule.
pub open spec fn ascii_verdict(s: Seq<char>) -> Result<(), ValidationError> {
    if vstd::utf8::is_ascii_chars(s) {
        Ok(())
    } else {
        Err(ValidationError::NotAscii)
    }
}

/// Accepts a value made of ASCII characters only.
pub fn check_ascii(value: &str) -> (r: Result<(), ValidationError>)
    ensures
        r == ascii_verdict(value@),
{
    if value.is_ascii() {
        Ok(())
    } else {
        Err(ValidationError::NotAscii)
    }
}

/// What is wrong with `s` as an email address according to garde's email
/// rule, as the rule's message, or `None` where the rule accepts it.
pub uninterp spec fn email_problem(s: Seq<char>) -> Option<Seq<char>>;

/// Relies on garde::rules::email::apply: its verdict and its message depend
/// on the value alone.
#[verifier::external_body]
fn garde_email(value: &str) -> (r: Option<String>)
    ensures
        match r {
            Some(m) => email_problem(value@) == Some(m@),
            None => email_problem(value@) is None,
        },
{
    garde::rules::email::apply(&value, ()).err().map(|e| e.message().to_string())
}

/// Whether `r` is the email rule's verdict on `s`: accepted, or refused with
/// garde's message.
pub open spec fn email_verdict(s: Seq<char>, r: Result<(), ValidationError>) -> bool {
    match email_problem(s) {
        Some(m) => r matches Err(ValidationError::InvalidEmail { message }) && message@ == m,
        None => r is Ok,
    }
}

/// Accepts a value that garde's email rule accepts.
pub fn check_email(value: &str) -> (r: Result<(), ValidationError>)
    ensures
        email_verdict(value@, r),
{
    match garde_email(value) {
        Some(message) => Err(ValidationError::InvalidEmail { message }),
        None => Ok(()),
    }
}

/// Whether `c` has Unicode's Alphabetic property, as std's
/// `char::is_alphabetic` says.
pub uninterp spec fn alphabetic(c: char) -> bool;

/// Relies on std's char::is_alphabetic, which depends on the character alone.
#[verifier::external_body]
fn is_alphabetic(c: char) -> (r: bool)
    ensures
        r == alphabetic(c),
{
    c.is_alphabetic()
}

/// Whether `c` is numeric in Unicode's sense, as std's `char::is_numeric`
/// says.
pub uninterp spec fn numeric(c: char) -> bool;

/// Relies on std's char::is_numeric, which depends on the character alone.
#[verifier::external_body]
fn is_numeric(c: char) -> (r: bool)
    ensures
        r == numeric(c),
{
    c.is_numeric()
}

/// ASCII punctuation: the printable ASCII characters that are neither
/// letters, digits nor space.
pub open spec fn punctuation(c: char) -> bool {
    ||| '!' <= c <= '/'
    ||| ':' <= c <= '@'
    ||| '[' <= c <= '`'
    ||| '{' <= c <= '~'
}

fn is_punctuation(c: char) -> (r: bool)
    ensures
        r == punctuation(c),
{
    ('!' <= c && c <= '/') || (':' <= c && c <= '@') || ('[' <= c && c <= '`') || ('{' <= c
        && c <= '~')
}

/// Whether some character of `s` has the property `p`.
pub open spec fn has_char(s: Seq<char>, p: spec_fn(char) -> bool) -> bool {
    exists|i: int| 0 <= i < s.len() && #[trigger] p(s[i])
}

/// Whether `s` holds an alphabetic character.
pub open spec fn has_letter(s: Seq<char>) -> bool {
    has_char(s, |c: char| alphabetic(c))
}

/// Whether `s` holds a numeric character.
pub open spec fn has_digit(s: Seq<char>) -> bool {
    has_char(s, |c: char| numeric(c))
}

/// Whether `s` holds an ASCII punctuation character.
pub open spec fn has_special(s: Seq<char>) -> bool {
    has_char(s, |c: char| punctuation(c))
}

proof fn lemma_has_char_push(s: Seq<char>, c: char, p: spec_fn(char) -> bool)
    ensures
        has_char(s.push(c), p) == (has_char(s, p) || p(c)),
{
    let t = s.push(c);
    if has_char(s, p) {
        let j = choose|j: int| 0 <= j < s.len() && #[trigger] p(s[j]);
        assert(t[j] == s[j]);
    }
    if p(c) {
        assert(t[s.len() as int] == c);
    }
    if has_char(t, p) {
        let j = choose|j: int| 0 <= j < t.len() && #[trigger] p(t[j]);
        if j < s.len() {
            assert(t[j] == s[j]);
        }
    }
}

/// Verdict of the strong-password rule.
pub open spec fn strength_verdict(s: Seq<char>) -> Result<(), ValidationError> {
    if !has_letter(s) {
        Err(ValidationError::NoLetter)
    } else if !has_digit(s) {
        Err(ValidationError::NoDigit)
    } else if !has_special(s) {
        Err(ValidationError::NoSpecialCharacter)
    } else {
        Ok(())
    }
}

/// Accepts a password that holds a letter, a digit and a punctuation
/// character.
pub fn is_strong_password(value: &str) -> (r: Result<(), ValidationError>)
    ensures
        r == strength_verdict(value@),
{
    let n = value.unicode_len();
    let mut letter = false;
    let mut digit = false;
    let mut special = false;
    let mut i: usize = 0;
    while i < n
        invariant
            n == value@.len(),
            i <= n,
            letter == has_letter(value@.subrange(0, i as int)),
            digit == has_digit(value@.subrange(0, i as int)),
            special == has_special(value@.subrange(0, i as int)),
        decreases n - i,
    {
        let c = value.get_char(i);
        let ghost prev = value@.subrange(0, i as int);
        let ghost next = value@.subrange(0, i + 1);
        assert(next == prev.push(c));
        proof {
            lemma_has_char_push(prev, c, |c: char| alphabetic(c));
            lemma_has_char_push(prev, c, |c: char| numeric(c));
            lemma_has_char_push(prev, c, |c: char| punctuation(c));
        }
        letter = letter || is_alphabetic(c);
        digit = digit || is_numeric(c);
        special = special || is_punctuation(c);
        i = i + 1;
    }
    assert(value@.subrange(0, n as int) == value@);
    if !letter {
        Err(ValidationError::NoLetter)
    } else if !digit {
        Err(ValidationError::NoDigit)
    } else if !special {
        Err(ValidationError::NoSpecialCharacter)
    } else {
        Ok(())
    }
}

} // verus!
