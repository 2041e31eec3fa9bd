//! The pagination cursor and its opaque, URL-safe token.
use base64::engine::general_purpose::URL_SAFE;
use base64::Engine as _;
use vstd::prelude::*;
use vstd::string::StringExecFns;

use crate::id::{hyphenated, hyphenated_text, parse_id};

verus! {

/// Where the next page of a listing starts: strictly after `last_id`, or at
/// the beginning where it is `None`.
#[derive(Debug, Clone, Copy, PartialEq, Eq, Structural)]
pub struct Cursor {
    /// Id of the last row of the previous page.
    pub last_id: Option<u128>,
}

/// A token that no cursor encodes to.
#[derive(Debug, Clone, Copy, PartialEq, Eq, Structural)]
pub struct InvalidCursor;

/// `{"last_id":` in ASCII.
pub open spec fn key_prefix() -> Seq<u8> {
    seq![123u8, 34, 108, 97, 115, 116, 95, 105, 100, 34, 58]
}

/// `null}` in ASCII.
pub open spec fn null_suffix() -> Seq<u8> {
    seq![110u8, 117, 108, 108, 125]
}

/// The compact JSON text of a cursor: `{"last_id":null}` or
/// `{"last_id":"<hyphenated id>"}`.
pub open spec fn cursor_text(c: Cursor) -> Seq<u8> {
    match c.last_id {
        None => key_prefix() + null_suffix(),
        Some(v) => key_prefix() + seq![34u8] + hyphenated(v) + seq![34u8, 125],
    }
}

/// The URL-safe base64 alphabet: the digit of each six-bit value.
pub open spec fn b64_alphabet() -> Seq<char> {
    "ABCDEFGHIJKLMNOPQRSTUVWXYZabcdefghijklmnopqrstuvwxyz0123456789-_"@
}

/// The base64 digit of a six-bit value.
pub open spec fn b64_digit(n: int) -> char {
    b64_alphabet()[n]
}

/// Base64 text of `b` in the URL-safe alphabet, padded with `=`: every
/// three bytes become four digits of six bits each, most significant bits
/// first; a last group of one or two bytes becomes two or three digits,
/// padded to four characters.
pub open spec fn base64_url(b: Seq<u8>) -> Seq<char>
    decreases b.len(),
{
    if b.len() == 0 {
        Seq::empty()
    } else if b.len() == 1 {
        seq![b64_digit((b[0] as int) / 4), b64_digit(((b[0] as int) % 4) * 16), '=', '=']
    } else if b.len() == 2 {
        seq![
            b64_digit((b[0] as int) / 4),
            b64_digit(((b[0] as int) % 4) * 16 + (b[1] as int) / 16),
            b64_digit(((b[1] as int) % 16) * 4),
            '=',
        ]
    } else {
        seq![
            b64_digit((b[0] as int) / 4),
            b64_digit(((b[0] as int) % 4) * 16 + (b[1] as int) / 16),
            b64_digit(((b[1] as int) % 16) * 4 + (b[2] as int) / 64),
            b64_digit((b[2] as int) % 64),
        ] + base64_url(b.subrange(3, b.len() as int))
    }
}

/// Whether `c` may stand in a token: a digit of the URL-safe alphabet or
/// the padding `=`.
pub open spec fn token_char(c: char) -> bool {
    b64_alphabet().contains(c) || c == '='
}

/// Base64 text is made of URL-safe digits and padding only, and is empty
/// only for no bytes.
pub proof fn lemma_base64_url_safe(b: Seq<u8>)
    ensures
        forall|i: int| 0 <= i < base64_url(b).len() ==> token_char(#[trigger] base64_url(b)[i]),
        b.len() > 0 ==> base64_url(b).len() > 0,
    decreases b.len(),
{
    reveal_strlit("ABCDEFGHIJKLMNOPQRSTUVWXYZabcdefghijklmnopqrstuvwxyz0123456789-_");
    assert(b64_alphabet().len() == 64);
    assert forall|n: int| 0 <= n < 64 implies token_char(#[trigger] b64_digit(n)) by {
        assert(b64_alphabet()[n] == b64_digit(n));
    }
    if b.len() >= 3 {
        let rest = b.subrange(3, b.len() as int);
        lemma_base64_url_safe(rest);
        let head = seq![
            b64_digit((b[0] as int) / 4),
            b64_digit(((b[0] as int) % 4) * 16 + (b[1] as int) / 16),
            b64_digit(((b[1] as int) % 16) * 4 + (b[2] as int) / 64),
            b64_digit((b[2] as int) % 64),
        ];
        assert(base64_url(b) == head + base64_url(rest));
        assert forall|i: int| 0 <= i < base64_url(b).len() implies token_char(
            #[trigger] base64_url(b)[i],
        ) by {
            if i >= 4 {
                assert(base64_url(b)[i] == base64_url(rest)[i - 4]);
            }
        }
    }
}

/// The token of a cursor.
pub open spec fn token_of(c: Cursor) -> Seq<char> {
    base64_url(cursor_text(c))
}

/// Relies on base64's `URL_SAFE` engine: `encode` writes `base64_url` of the
/// bytes (padding on); it panics only where the output length overflows.
#[verifier::external_body]
fn base64_encode(b: &[u8]) -> (r: String)
    requires
        b@.len() <= 4096,
    ensures
        r@ == base64_url(b@),
{
    URL_SAFE.encode(b)
}

/// Relies on base64's `URL_SAFE` engine: `decode` gives back the bytes that
/// `encode` wrote, and, as the engine requires canonical padding and zero
/// trailing bits, it accepts no other text.
#[verifier::external_body]
fn base64_decode(s: &str) -> (r: Option<Vec<u8>>)
    ensures
        r matches Some(b) ==> base64_url(b@) == s@,
        forall|b: Seq<u8>| #[trigger] base64_url(b) == s@ ==> r.is_some() && r.unwrap()@ == b,
{
    URL_SAFE.decode(s).ok()
}

impl InvalidCursor {
    /// The reason text of this error.
    pub fn to_string(&self) -> (r: String)
        ensures
            r@ == "invalid cursor"@,
    {
        String::from_str("invalid cursor")
    }
}

fn push_bytes(v: &mut Vec<u8>, b: &[u8])
    ensures
        final(v)@ == old(v)@ + b@,
{
    v.extend_from_slice(b);
    assert(final(v)@ =~= old(v)@ + b@);
}

impl Cursor {
    /// A cursor that continues after `last_id`.
    pub fn new(last_id: Option<u128>) -> (r: Cursor)
        ensures
            r.last_id == last_id,
    {
        Cursor { last_id }
    }

    /// The JSON text of this cursor.
    fn text(&self) -> (r: Vec<u8>)
        ensures
            r@ == cursor_text(*self),
    {
        let prefix: [u8; 11] = [123, 34, 108, 97, 115, 116, 95, 105, 100, 34, 58];
        assert(prefix@ =~= key_prefix());
        let mut out: Vec<u8> = Vec::new();
        push_bytes(&mut out, &prefix);
        match self.last_id {
            None => {
                let suffix: [u8; 5] = [110, 117, 108, 108, 125];
                assert(suffix@ =~= null_suffix());
                push_bytes(&mut out, &suffix);
                assert(out@ =~= cursor_text(*self));
            },
            Some(v) => {
                let quote: [u8; 1] = [34];
                let end: [u8; 2] = [34, 125];
                push_bytes(&mut out, &quote);
                let id = hyphenated_text(v);
                push_bytes(&mut out, id.as_slice());
                push_bytes(&mut out, &end);
                assert(quote@ =~= seq![34u8]);
                assert(end@ =~= seq![34u8, 125]);
                assert(out@ =~= cursor_text(*self));
            },
        }
        out
    }

    /// The opaque token of this cursor: its JSON text in URL-safe base64. It
    /// is never empty and needs no escaping in a URL.
    pub fn encode(&self) -> (r: String)
        ensures
            r@ == token_of(*self),
            r@.len() > 0,
            forall|i: int| 0 <= i < r@.len() ==> token_char(#[trigger] r@[i]),
    {
        let text = self.text();
        proof {
            lemma_base64_url_safe(text@);
        }
        base64_encode(text.as_slice())
    }

    /// Reads a token back. Exactly the tokens that `encode` writes are
    /// accepted, each giving back the cursor it was written from; any other
    /// text is an invalid cursor.
    pub fn decode(token: &str) -> (r: Result<Cursor, InvalidCursor>)
        ensures
            r matches Ok(c) ==> token_of(c) == token@,
            forall|c: Cursor| #[trigger] token_of(c) == token@ ==> r == Ok::<Cursor, InvalidCursor>(c),
            r is Err <==> forall|c: Cursor| #[trigger] token_of(c) != token@,
    {
        let r = match base64_decode(token) {
            Some(bytes) => match Self::parse_text(bytes.as_slice()) {
                Some(c) => Ok(c),
                None => Err(InvalidCursor),
            },
            None => Err(InvalidCursor),
        };
        proof {
            if r is Err {
                assert forall|c: Cursor| #[trigger] token_of(c) != token@ by {
                    if token_of(c) == token@ {
                        assert(base64_url(cursor_text(c)) == token@);
                    }
                }
            }
        }
        r
    }

    /// Reads the JSON text of a cursor, in exactly the form `text` writes.
    fn parse_text(b: &[u8]) -> (r: Option<Cursor>)
        ensures
            r matches Some(c) ==> cursor_text(c) == b@,
            forall|c: Cursor| #[trigger] cursor_text(c) == b@ ==> r == Some(c),
    {
        let n = b.len();
        if n < 11 {
            return None;
        }
        let mut i: usize = 0;
        let prefix: [u8; 11] = [123, 34, 108, 97, 115, 116, 95, 105, 100, 34, 58];
        assert(prefix@ =~= key_prefix());
        while i < 11
            invariant
                i <= 11 <= n == b@.len(),
                prefix@ == key_prefix(),
                forall|j: int| 0 <= j < i ==> b@[j] == key_prefix()[j],
            decreases 11 - i,
        {
            if b[i] != prefix[i] {
                proof {
                    assert forall|c: Cursor| #[trigger] cursor_text(c) != b@ by {
                        assert(cursor_text(c)[i as int] == key_prefix()[i as int]);
                    }
                }
                return None;
            }
            i = i + 1;
        }
        assert(b@.subrange(0, 11) =~= key_prefix());
        if n == 16 {
            if b[11] == 110 && b[12] == 117 && b[13] == 108 && b[14] == 108 && b[15] == 125 {
                let c = Cursor { last_id: None };
                assert(b@ =~= cursor_text(c));
                return Some(c);
            }
            proof {
                assert forall|c: Cursor| #[trigger] cursor_text(c) != b@ by {
                    if c.last_id is None {
                        assert(cursor_text(c)[11] == 110u8);
                        assert(cursor_text(c)[12] == 117u8);
                        assert(cursor_text(c)[13] == 108u8);
                        assert(cursor_text(c)[14] == 108u8);
                        assert(cursor_text(c)[15] == 125u8);
                    }
                }
            }
            return None;
        }
        if n != 50 || b[11] != 34 || b[48] != 34 || b[49] != 125 {
            proof {
                assert forall|c: Cursor| #[trigger] cursor_text(c) != b@ by {
                    if cursor_text(c) == b@ {
                        assert(cursor_text(c)[11] == 34u8);
                        assert(cursor_text(c)[48] == 34u8);
                        assert(cursor_text(c)[49] == 125u8);
                    }
                }
            }
            return None;
        }
        let inner = vstd::slice::slice_subrange(b, 12, 48);
        match parse_id(inner) {
            Some(v) => {
                let text = hyphenated_text(v);
                if vec_eq(&text, inner) {
                    let c = Cursor { last_id: Some(v) };
                    assert(b@ =~= cursor_text(c));
                    proof {
                        assert forall|d: Cursor| #[trigger] cursor_text(d) == b@ implies d == c by {
                            if d.last_id is Some {
                                let w = d.last_id->Some_0;
                                assert(inner@ =~= hyphenated(w));
                            }
                        }
                    }
                    return Some(c);
                }
                proof {
                    assert forall|c: Cursor| #[trigger] cursor_text(c) != b@ by {
                        if cursor_text(c) == b@ {
                            let w = c.last_id->Some_0;
                            assert(inner@ =~= hyphenated(w));
                        }
                    }
                }
                None
            },
            None => {
                proof {
                    assert forall|c: Cursor| #[trigger] cursor_text(c) != b@ by {
                        if cursor_text(c) == b@ {
                            let w = c.last_id->Some_0;
                            assert(inner@ =~= hyphenated(w));
                        }
                    }
                }
                None
            },
        }
    }
}

fn vec_eq(a: &Vec<u8>, b: &[u8]) -> (r: bool)
    ensures
        r == (a@ == b@),
{
    if a.len() != b.len() {
        return false;
    }
    let mut i: usize = 0;
    while i < a.len()
        invariant
            a@.len() == b@.len(),
            i <= a@.len(),
            forall|j: int| 0 <= j < i ==> a@[j] == b@[j],
        decreases a.len() - i,
    {
        if a[i] != b[i] {
            return false;
        }
        i = i + 1;
    }
    assert(a@ =~= b@);
    true
}

} // verus!
