//! Credentials: short random secrets that live in memory only, the policy
//! each role's secret follows, and the generator that draws them.

use crate::error::{ErrorView, ProvisionError};
use rand::Rng;
use vstd::prelude::*;
use vstd::string::StrSliceExecFns;

verus! {

/// The role a credential authenticates.
#[derive(Clone, Copy, Debug, PartialEq, Eq, Structural)]
pub enum Role {
    Administrative,
    User,
}

/// The characters of an administrative credential: lower-case hexadecimal.
pub const ADMIN_ALPHABET: &'static str = "0123456789abcdef";

/// The number of characters of an administrative credential.
pub const ADMIN_LENGTH: usize = 16;

/// The characters of a user credential: lower-case letters and digits.
pub const USER_ALPHABET: &'static str = "abcdefghijklmnopqrstuvwxyz0123456789";

/// The number of characters of a user credential.
pub const USER_LENGTH: usize = 6;

/// The pattern a current administrative PIN of a token has to match.
pub const SO_PIN_PATTERN: &'static str = "^[[:xdigit:]]{16}$";

/// A secret held in memory. It has no textual form of its own: code that
/// needs the characters asks for them with `expose`, and `forget` empties it.
pub struct Credential {
    secret: String,
}

impl View for Credential {
    type V = Seq<char>;

    closed spec fn view(&self) -> Seq<char> {
        self.secret@
    }
}

/// Every character of `s` occurs in `alphabet`.
pub open spec fn drawn_from(s: Seq<char>, alphabet: Seq<char>) -> bool {
    forall|i: int| 0 <= i < s.len() ==> alphabet.contains(#[trigger] s[i])
}

/// The alphabet of a role's credential.
pub open spec fn policy_alphabet(role: Role) -> Seq<char> {
    match role {
        Role::Administrative => ADMIN_ALPHABET@,
        Role::User => USER_ALPHABET@,
    }
}

/// The length of a role's credential.
pub open spec fn policy_length(role: Role) -> nat {
    match role {
        Role::Administrative => ADMIN_LENGTH as nat,
        Role::User => USER_LENGTH as nat,
    }
}

/// A secret follows the policy of a role: the role's length, and every
/// character from the role's alphabet.
pub open spec fn admitted(role: Role, s: Seq<char>) -> bool {
    s.len() == policy_length(role) && drawn_from(s, policy_alphabet(role))
}

/// The characters that a sequence of draws picks from an alphabet: at each
/// place the alphabet's character at the index drawn for that place.
pub open spec fn drawn(alphabet: Seq<char>, draws: Seq<usize>) -> Seq<char> {
    Seq::new(draws.len(), |i: int| alphabet[draws[i] as int])
}

/// Every draw is an index into the alphabet.
pub open spec fn draws_fit(alphabet: Seq<char>, draws: Seq<usize>) -> bool {
    forall|i: int| 0 <= i < draws.len() ==> draws[i] < alphabet.len()
}

/// `s` is what some `length` draws pick from the alphabet.
pub open spec fn is_drawn(s: Seq<char>, alphabet: Seq<char>, length: nat) -> bool {
    exists|draws: Seq<usize>|
        draws.len() == length && draws_fit(alphabet, draws) && s == #[trigger] drawn(
            alphabet,
            draws,
        )
}

/// A hexadecimal digit, in either case.
pub open spec fn is_hex_digit(c: char) -> bool {
    ('0' <= c && c <= '9') || ('a' <= c && c <= 'f') || ('A' <= c && c <= 'F')
}

/// The form of a token's administrative PIN: sixteen hexadecimal digits.
pub open spec fn is_so_pin(s: Seq<char>) -> bool {
    s.len() == 16 && forall|i: int| 0 <= i < s.len() ==> is_hex_digit(#[trigger] s[i])
}

/// `String::push` appends the character to the end of the string.
pub assume_specification[ String::push ](s: &mut String, c: char)
    ensures
        final(s)@ == old(s)@.push(c),
;

/// `rand::Rng::gen_range(0, bound)` on `rand::thread_rng()`: some index below
/// `bound`. Which one is left open, so that two calls may differ.
/// `gen_range` panics on an empty range, so the bound is positive;
/// `thread_rng` panics where the system has no source of randomness to seed it.
#[verifier::external_body]
fn random_below(bound: usize) -> (index: usize)
    requires
        bound > 0,
    ensures
        index < bound,
{
    rand::thread_rng().gen_range(0, bound)
}

/// `regex::Regex::new` on the pattern, then `regex::Regex::is_match` on the
/// haystack; `None` where the pattern is refused. Of the pattern for a
/// token's administrative PIN the contract says what the crate's syntax gives
/// it: `^` and `$` are the two ends of the haystack, `[[:xdigit:]]` is one of
/// `0-9`, `a-f`, `A-F`, and `{16}` asks for exactly sixteen of them. Of other
/// patterns it says nothing.
#[verifier::external_body]
fn pattern_matches(pattern: &str, haystack: &str) -> (hit: Option<bool>)
    ensures
        pattern@ == SO_PIN_PATTERN@ ==> hit == Some(is_so_pin(haystack@)),
{
    match regex::Regex::new(pattern) {
        Ok(re) => Some(re.is_match(haystack)),
        Err(_) => None,
    }
}

impl Credential {
    /// Wraps characters that came from outside, such as what an operator typed.
    pub fn new(secret: String) -> (c: Credential)
        ensures
            c@ == secret@,
    {
        Credential { secret }
    }

    /// A credential that holds nothing.
    pub fn empty() -> (c: Credential)
        ensures
            c@ == Seq::<char>::empty(),
    {
        Credential { secret: String::new() }
    }

    /// The characters, for the one who has to submit or show them.
    pub fn expose(&self) -> (s: &str)
        ensures
            s@ == self@,
    {
        self.secret.as_str()
    }

    /// A second holder of the same secret.
    pub fn duplicate(&self) -> (c: Credential)
        ensures
            c@ == self@,
    {
        Credential { secret: self.secret.clone() }
    }

    /// Whether two credentials hold the same characters.
    pub fn matches(&self, other: &Credential) -> (same: bool)
        ensures
            same == (self@ == other@),
    {
        self.secret == other.secret
    }

    /// Empties the credential: the clearing point of a consumed secret.
    pub fn forget(&mut self)
        ensures
            final(self)@ == Seq::<char>::empty(),
    {
        self.secret = String::new();
    }
}

/// Accepts a current administrative PIN of a token iff it is sixteen
/// hexadecimal digits.
pub fn is_valid_so_pin(val: &str) -> (r: Result<(), ProvisionError>)
    ensures
        r is Ok <==> is_so_pin(val@),
        r matches Err(error) ==> error@ == ErrorView::InvalidSoPin,
{
    match pattern_matches(SO_PIN_PATTERN, val) {
        Some(true) => Ok(()),
        _ => Err(ProvisionError::InvalidSoPin),
    }
}

/// Whether a character occurs in an alphabet.
pub fn occurs_in(alphabet: &str, c: char) -> (found: bool)
    ensures
        found == alphabet@.contains(c),
{
    let n = alphabet.unicode_len();
    let mut i: usize = 0;
    while i < n
        invariant
            i <= n,
            n == alphabet@.len(),
            forall|j: int| 0 <= j < i ==> alphabet@[j] != c,
        decreases n - i,
    {
        if alphabet.get_char(i) == c {
            return true;
        }
        i += 1;
    }
    false
}

/// Whether a secret has the given length and only characters of the alphabet.
pub fn follows(secret: &Credential, alphabet: &str, length: usize) -> (ok: bool)
    ensures
        ok == (secret@.len() == length && drawn_from(secret@, alphabet@)),
{
    let text = secret.expose();
    let n = text.unicode_len();
    if n != length {
        return false;
    }
    let mut i: usize = 0;
    while i < n
        invariant
            i <= n,
            n == text@.len(),
            text@ == secret@,
            forall|j: int| 0 <= j < i ==> alphabet@.contains(#[trigger] text@[j]),
        decreases n - i,
    {
        if !occurs_in(alphabet, text.get_char(i)) {
            return false;
        }
        i += 1;
    }
    true
}

/// Whether a secret follows the policy of a role.
pub fn conforms(role: Role, secret: &Credential) -> (ok: bool)
    ensures
        ok == admitted(role, secret@),
{
    match role {
        Role::Administrative => follows(secret, ADMIN_ALPHABET, ADMIN_LENGTH),
        Role::User => follows(secret, USER_ALPHABET, USER_LENGTH),
    }
}

/// A fresh credential for a role, by the role's policy: what as many draws
/// as the policy's length pick from the policy's alphabet.
pub fn generate_for(role: Role) -> (c: Credential)
    ensures
        admitted(role, c@),
        is_drawn(c@, policy_alphabet(role), policy_length(role)),
{
    match role {
        Role::Administrative => new_so_pin(),
        Role::User => new_user_pin(),
    }
}

/// The credential that a sequence of draws picks from an alphabet.
pub fn from_draws(alphabet: &str, draws: &Vec<usize>) -> (c: Credential)
    requires
        forall|i: int| 0 <= i < draws.len() ==> draws[i] < alphabet@.len(),
    ensures
        c@ == drawn(alphabet@, draws@),
{
    let mut secret = String::new();
    let mut i: usize = 0;
    while i < draws.len()
        invariant
            i <= draws.len(),
            forall|j: int| 0 <= j < draws.len() ==> draws[j] < alphabet@.len(),
            secret@.len() == i,
            forall|j: int| 0 <= j < i ==> secret@[j] == alphabet@[draws[j] as int],
        decreases draws.len() - i,
    {
        secret.push(alphabet.get_char(draws[i]));
        i += 1;
    }
    assert(secret@ =~= drawn(alphabet@, draws@));
    Credential { secret }
}

/// So many random indices below a bound, each from a draw of its own.
pub fn draw(bound: usize, count: usize) -> (draws: Vec<usize>)
    requires
        bound > 0,
    ensures
        draws.len() == count,
        forall|i: int| 0 <= i < draws.len() ==> draws[i] < bound,
{
    let mut draws: Vec<usize> = Vec::new();
    let mut i: usize = 0;
    while i < count
        invariant
            i <= count,
            bound > 0,
            draws.len() == i,
            forall|j: int| 0 <= j < draws.len() ==> draws[j] < bound,
        decreases count - i,
    {
        draws.push(random_below(bound));
        i += 1;
    }
    draws
}

/// What draws that fit an alphabet pick from it has one character for each
/// draw, each of them from the alphabet.
pub proof fn lemma_drawn_is_from_the_alphabet(alphabet: Seq<char>, draws: Seq<usize>)
    requires
        draws_fit(alphabet, draws),
    ensures
        drawn(alphabet, draws).len() == draws.len(),
        drawn_from(drawn(alphabet, draws), alphabet),
{
    assert forall|i: int| 0 <= i < draws.len() implies alphabet.contains(
        #[trigger] drawn(alphabet, draws)[i],
    ) by {
        assert(alphabet[draws[i] as int] == drawn(alphabet, draws)[i]);
    }
}

/// Draws `length` random indices into `alphabet`, one for each place, and
/// returns the characters they pick.
pub fn generate(alphabet: &str, length: usize) -> (c: Credential)
    requires
        alphabet@.len() > 0,
    ensures
        c@.len() == length,
        drawn_from(c@, alphabet@),
        is_drawn(c@, alphabet@, length as nat),
{
    let draws = draw(alphabet.unicode_len(), length);
    proof {
        lemma_drawn_is_from_the_alphabet(alphabet@, draws@);
    }
    from_draws(alphabet, &draws)
}

/// A fresh administrative credential: what sixteen draws pick from the
/// lower-case hexadecimal digits.
pub fn new_so_pin() -> (c: Credential)
    ensures
        admitted(Role::Administrative, c@),
        is_drawn(c@, ADMIN_ALPHABET@, ADMIN_LENGTH as nat),
{
    proof {
        reveal_strlit("0123456789abcdef");
    }
    generate(ADMIN_ALPHABET, ADMIN_LENGTH)
}

/// A fresh user credential: what six draws pick from the lower-case letters
/// and the digits.
pub fn new_user_pin() -> (c: Credential)
    ensures
        admitted(Role::User, c@),
        is_drawn(c@, USER_ALPHABET@, USER_LENGTH as nat),
{
    proof {
        reveal_strlit("abcdefghijklmnopqrstuvwxyz0123456789");
    }
    generate(USER_ALPHABET, USER_LENGTH)
}

/// A credential that follows the administrative policy has the form of a
/// token's administrative PIN.
pub proof fn law_admin_policy_gives_so_pin(s: Seq<char>)
    requires
        admitted(Role::Administrative, s),
    ensures
        is_so_pin(s),
{
    reveal_strlit("0123456789abcdef");
    assert forall|i: int| 0 <= i < s.len() implies is_hex_digit(#[trigger] s[i]) by {
        let a = ADMIN_ALPHABET@;
        assert(a.contains(s[i]));
        let k = choose|k: int| 0 <= k < a.len() && a[k] == s[i];
        assert(0 <= k < 16);
    }
}

} // verus!
