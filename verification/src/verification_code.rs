//! The e-mail verification code: a six-character value drawn from the
//! uppercase alphanumeric alphabet, with random generation and format
//! validation.
use vstd::prelude::*;
use vstd::string::*;

verus! {

/// A character a verification code may contain: an uppercase ASCII letter
/// or an ASCII digit.
pub open spec fn is_code_char(c: char) -> bool {
    (65 <= c as u32 && c as u32 <= 90) || (48 <= c as u32 && c as u32 <= 57)
}

/// A string is a well-formed verification code: exactly six characters,
/// each an uppercase ASCII letter or an ASCII digit.
pub open spec fn code_format_ok(s: Seq<char>) -> bool {
    s.len() == 6 && forall|i: int| 0 <= i < s.len() ==> is_code_char(s[i])
}

/// Relies on rand: `RngExt::random_range(0..n)` returns a uniformly
/// distributed value of the (non-empty) range.
#[verifier::external_body]
fn random_below(n: usize) -> (r: usize)
    requires
        n > 0,
    ensures
        r < n,
{
    rand::RngExt::random_range(&mut rand::rng(), 0..n)
}

/// Decide whether a string is a well-formed verification code.
fn is_valid_code_str(s: &str) -> (r: bool)
    ensures
        r == code_format_ok(s@),
{
    let n = s.unicode_len();
    if n != 6 {
        return false;
    }
    let mut i: usize = 0;
    while i < 6
        invariant
            i <= 6,
            s@.len() == 6,
            forall|j: int| 0 <= j < i ==> is_code_char(s@[j]),
        decreases 6 - i,
    {
        let c = s.get_char(i);
        let u = c as u32;
        if !((65 <= u && u <= 90) || (48 <= u && u <= 57)) {
            return false;
        }
        i += 1;
    }
    true
}

/// A fresh six-character code, each character drawn independently from
/// the uppercase alphanumeric alphabet.
fn random_6_chars() -> (r: String)
    ensures
        code_format_ok(r@),
{
    let alphabet = "ABCDEFGHIJKLMNOPQRSTUVWXYZ0123456789";
    proof {
        reveal_strlit("ABCDEFGHIJKLMNOPQRSTUVWXYZ0123456789");
    }
    assert(alphabet@.len() == 36);
    assert(forall|j: int| 0 <= j < 36 ==> is_code_char(#[trigger] alphabet@[j]));
    let mut s = String::new();
    let mut i: usize = 0;
    while i < 6
        invariant
            i <= 6,
            s@.len() == i,
            alphabet@.len() == 36,
            forall|j: int| 0 <= j < 36 ==> is_code_char(#[trigger] alphabet@[j]),
            forall|j: int| 0 <= j < s@.len() ==> is_code_char(s@[j]),
        decreases 6 - i,
    {
        let idx = random_below(36);
        let piece = alphabet.substring_char(idx, idx + 1);
        s.append(piece);
        i += 1;
    }
    s
}

/// A six-character uppercase alphanumeric e-mail verification code.
/// Verification matching is exact string equality; no normalization is
/// applied.
#[derive(Debug, PartialEq, Eq)]
pub struct EmailVerificationCode {
    pub code: String,
}

impl EmailVerificationCode {
    /// The code's invariant: six characters of `[A-Z0-9]`.
    pub open spec fn well_formed(&self) -> bool {
        code_format_ok(self.code@)
    }

    /// Parse a presented code string. Succeeds exactly on well-formed
    /// codes and returns them unchanged; everything else is rejected.
    pub fn from_str(code: String) -> (r: Result<Self, String>)
        ensures
            code_format_ok(code@) <==> r is Ok,
            r matches Ok(c) ==> c.code@ == code@,
            r matches Err(e) ==> e@ == "Invalid code"@,
    {
        if !is_valid_code_str(code.as_str()) {
            return Err(String::from_str("Invalid code"));
        }
        Ok(Self { code })
    }
}

/// The round trip law: the generator's guarantee is exactly the parser's
/// acceptance condition, so every generated code parses back (and
/// [`EmailVerificationCode::from_str`] returns it unchanged), while any
/// string that is not six characters of `[A-Z0-9]` is rejected.
pub proof fn lemma_generated_code_parses_back(c: EmailVerificationCode)
    requires
        c.well_formed(),
    ensures
        code_format_ok(c.code@),
{
}

impl Clone for EmailVerificationCode {
    /// A clone carries the same code string.
    fn clone(&self) -> (r: Self)
        ensures
            r == *self,
    {
        Self { code: self.code.clone() }
    }
}

impl Default for EmailVerificationCode {
    /// A fresh randomly generated code; always well-formed, so it always
    /// parses back successfully.
    fn default() -> (r: Self)
        ensures
            r.well_formed(),
    {
        Self { code: random_6_chars() }
    }
}

} // verus!
