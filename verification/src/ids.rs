//! Session, correlation and auth-token identifiers.
//!
//! A session id names one logical client instance; a correlation id is
//! generated fresh per up-message and is unique within a session's in-flight
//! window; an auth token is an opaque bearer credential. Session and
//! correlation ids travel as decimal strings in one header or path segment
//! each, so this module also holds a verified decimal reader and writer.

use vstd::prelude::*;

verus! {

/// True for the ten ASCII decimal digit characters.
pub open spec fn is_dec_digit(c: char) -> bool {
    '0' <= c && c <= '9'
}

/// Numeric value of one digit character; zero for any other character,
/// which keeps `dec_value` total and monotone under extension.
pub open spec fn digit_val(c: char) -> nat {
    if is_dec_digit(c) {
        (c as int - '0' as int) as nat
    } else {
        0
    }
}

/// Every character of `s` is a decimal digit.
pub open spec fn all_dec_digits(s: Seq<char>) -> bool {
    forall|i: int| 0 <= i < s.len() ==> is_dec_digit(#[trigger] s[i])
}

/// The number that the digit string `s` denotes, most significant first.
pub open spec fn dec_value(s: Seq<char>) -> nat
    decreases s.len(),
{
    if s.len() == 0 {
        0
    } else {
        dec_value(s.drop_last()) * 10 + digit_val(s.last())
    }
}

/// `s` is a non-empty digit string whose value fits in a `u128`.
pub open spec fn valid_dec_u128(s: Seq<char>) -> bool {
    s.len() > 0 && all_dec_digits(s) && dec_value(s) <= u128::MAX
}

/// The character of one decimal digit.
pub open spec fn digit_char(d: nat) -> char {
    if d == 0 {
        '0'
    } else if d == 1 {
        '1'
    } else if d == 2 {
        '2'
    } else if d == 3 {
        '3'
    } else if d == 4 {
        '4'
    } else if d == 5 {
        '5'
    } else if d == 6 {
        '6'
    } else if d == 7 {
        '7'
    } else if d == 8 {
        '8'
    } else {
        '9'
    }
}

/// The canonical decimal form of `n`, most significant digit first: no
/// sign, and no leading zero except for the number zero itself.
pub open spec fn dec_digits(n: nat) -> Seq<char>
    decreases n,
{
    if n < 10 {
        seq![digit_char(n)]
    } else {
        dec_digits(n / 10).push(digit_char(n % 10))
    }
}

/// A prefix of a digit string never denotes more than the whole string.
proof fn lemma_dec_value_prefix_le(s: Seq<char>, k: int)
    requires
        0 <= k <= s.len(),
    ensures
        dec_value(s.subrange(0, k)) <= dec_value(s),
    decreases s.len() - k,
{
    if k == s.len() {
        assert(s.subrange(0, k) =~= s);
    } else {
        let t = s.drop_last();
        assert(s.subrange(0, k) =~= t.subrange(0, k));
        lemma_dec_value_prefix_le(t, k);
    }
}

/// Read a `u128` from its decimal digit string.
///
/// Returns the denoted number exactly when `s` is non-empty, all digits,
/// and the value fits; returns `None` otherwise.
pub fn parse_u128_digits(s: &str) -> (r: Option<u128>)
    ensures
        r is Some <==> valid_dec_u128(s@),
        r is Some ==> r.unwrap() == dec_value(s@),
{
    let n = s.unicode_len();
    if n == 0 {
        return None;
    }
    let mut acc: u128 = 0;
    let mut i: usize = 0;
    while i < n
        invariant
            0 <= i <= n,
            n == s@.len(),
            forall|j: int| 0 <= j < i ==> is_dec_digit(#[trigger] s@[j]),
            acc == dec_value(s@.subrange(0, i as int)),
        decreases n - i,
    {
        let c = s.get_char(i);
        if c < '0' || c > '9' {
            return None;
        }
        let d: u128 = (c as u32 - 48) as u128;
        assert(d == digit_val(s@[i as int]));
        if acc > (u128::MAX - d) / 10 {
            proof {
                let p = s@.subrange(0, i + 1);
                assert(p.drop_last() =~= s@.subrange(0, i as int));
                assert(dec_value(p) == acc * 10 + d);
                assert(acc * 10 + d > u128::MAX) by {
                    assert(acc >= (u128::MAX - d) / 10 + 1);
                    assert(((u128::MAX - d) / 10 + 1) * 10 == ((u128::MAX - d) / 10) * 10 + 10);
                    assert((u128::MAX - d) / 10 * 10 + (u128::MAX - d) % 10 == u128::MAX - d);
                };
                lemma_dec_value_prefix_le(s@, i + 1);
            }
            return None;
        }
        acc = acc * 10 + d;
        proof {
            assert(s@.subrange(0, i + 1).drop_last() =~= s@.subrange(0, i as int));
        }
        i += 1;
    }
    proof {
        assert(s@.subrange(0, n as int) =~= s@);
    }
    Some(acc)
}

/// One decimal digit as a string slice.
fn digit_str(d: u8) -> (r: &'static str)
    requires
        d < 10,
    ensures
        r@ =~= seq![digit_char(d as nat)],
{
    proof {
        reveal_strlit("0");
        reveal_strlit("1");
        reveal_strlit("2");
        reveal_strlit("3");
        reveal_strlit("4");
        reveal_strlit("5");
        reveal_strlit("6");
        reveal_strlit("7");
        reveal_strlit("8");
        reveal_strlit("9");
    }
    match d {
        0 => "0",
        1 => "1",
        2 => "2",
        3 => "3",
        4 => "4",
        5 => "5",
        6 => "6",
        7 => "7",
        8 => "8",
        _ => "9",
    }
}

/// Digit characters of the byte digits `ds`, read back to front.
spec fn rev_digit_chars(ds: Seq<u8>) -> Seq<char> {
    Seq::new(ds.len(), |i: int| digit_char(ds[ds.len() - 1 - i] as nat))
}

/// Write `n` as its decimal digit string.
pub fn u128_to_dec_string(n: u128) -> (r: String)
    ensures
        r@ == dec_digits(n as nat),
{
    let mut digits: Vec<u8> = Vec::new();
    let mut m = n;
    loop
        invariant_except_break
            digits@.len() == 0 ==> m == n,
            digits@.len() > 0 ==> m > 0 && dec_digits(n as nat) == dec_digits(m as nat)
                + rev_digit_chars(digits@),
        invariant
            forall|j: int| 0 <= j < digits@.len() ==> #[trigger] digits@[j] < 10,
        ensures
            digits@.len() > 0,
            dec_digits(n as nat) == rev_digit_chars(digits@),
        decreases m,
    {
        proof {
            if digits@.len() == 0 {
                assert(dec_digits(n as nat) + rev_digit_chars(digits@) =~= dec_digits(n as nat));
            }
            assert(dec_digits(n as nat) == dec_digits(m as nat) + rev_digit_chars(digits@));
        }
        let d = (m % 10) as u8;
        let m2 = m / 10;
        let ghost old_digits = digits@;
        digits.push(d);
        proof {
            assert(rev_digit_chars(digits@) =~= seq![digit_char(d as nat)]
                + rev_digit_chars(old_digits));
            if m2 > 0 {
                assert(dec_digits(m as nat) == dec_digits(m2 as nat).push(digit_char(d as nat)));
                assert(dec_digits(m2 as nat).push(digit_char(d as nat)) + rev_digit_chars(old_digits)
                    =~= dec_digits(m2 as nat) + rev_digit_chars(digits@));
            } else {
                assert(dec_digits(m as nat) =~= seq![digit_char(d as nat)]);
                assert(seq![digit_char(d as nat)] + rev_digit_chars(old_digits)
                    =~= rev_digit_chars(digits@));
            }
        }
        m = m2;
        if m == 0 {
            break;
        }
    }
    let mut r = String::new();
    let k = digits.len();
    let mut j: usize = 0;
    while j < k
        invariant
            k == digits@.len(),
            0 <= j <= k,
            forall|t: int| 0 <= t < k ==> #[trigger] digits@[t] < 10,
            r@ =~= rev_digit_chars(digits@).take(j as int),
            dec_digits(n as nat) == rev_digit_chars(digits@),
        decreases k - j,
    {
        let d = digits[k - 1 - j];
        r.append(digit_str(d));
        proof {
            assert(rev_digit_chars(digits@).take(j + 1)
                =~= rev_digit_chars(digits@).take(j as int).push(digit_char(digits@[k - 1 - j] as nat)));
        }
        j += 1;
    }
    proof {
        assert(rev_digit_chars(digits@).take(k as int) =~= rev_digit_chars(digits@));
    }
    r
}

proof fn lemma_dec_digits_value(n: nat)
    ensures
        dec_digits(n).len() > 0,
        all_dec_digits(dec_digits(n)),
        dec_value(dec_digits(n)) == n,
    decreases n,
{
    if n < 10 {
        let s = dec_digits(n);
        assert(s =~= seq![digit_char(n)]);
        assert(s.drop_last() =~= Seq::<char>::empty());
        assert(dec_value(Seq::<char>::empty()) == 0);
        assert(digit_val(digit_char(n)) == n);
        assert(dec_value(s) == dec_value(s.drop_last()) * 10 + digit_val(s.last()));
    } else {
        lemma_dec_digits_value(n / 10);
        let s = dec_digits(n);
        assert(s == dec_digits(n / 10).push(digit_char(n % 10)));
        assert(s.drop_last() =~= dec_digits(n / 10));
        assert(digit_val(digit_char(n % 10)) == n % 10);
        assert(dec_value(s) == dec_value(s.drop_last()) * 10 + digit_val(s.last()));
        assert(dec_value(s) == (n / 10) * 10 + n % 10);
        assert((n / 10) * 10 + n % 10 == n);
    }
}

/// Writing a number in decimal and reading the string back yields the same
/// number: the form `u128_to_dec_string` produces is always accepted by
/// `parse_u128_digits` and denotes the written number.
pub proof fn lemma_dec_roundtrip(n: u128)
    ensures
        valid_dec_u128(dec_digits(n as nat)),
        dec_value(dec_digits(n as nat)) == n,
{
    lemma_dec_digits_value(n as nat);
}

/// Read the process build id from the stored contents of the build-id
/// file. A missing file or unreadable contents fall back to zero rather
/// than failing startup.
pub fn parse_build_id(contents: Option<&str>) -> (r: u128)
    ensures
        contents is None ==> r == 0,
        contents matches Some(s) ==> if valid_dec_u128(s@) {
            r == dec_value(s@)
        } else {
            r == 0
        },
{
    match contents {
        Some(s) => match parse_u128_digits(s) {
            Some(value) => value,
            None => 0,
        },
        None => 0,
    }
}

/// One logical client instance; the routing key for down-message delivery.
///
/// Its wire form is the decimal string of `value`, carried in one header
/// or path segment; equality and ordering over ids are total.
#[derive(Clone, Copy, PartialEq, Eq, Hash, Debug, Structural)]
pub struct SessionId {
    pub value: u128,
}

impl SessionId {
    pub fn new(value: u128) -> (r: Self)
        ensures
            r.value == value,
    {
        SessionId { value }
    }

    /// Read a session id from its decimal wire form.
    pub fn parse(s: &str) -> (r: Option<SessionId>)
        ensures
            r is Some <==> valid_dec_u128(s@),
            r is Some ==> r.unwrap().value == dec_value(s@),
    {
        match parse_u128_digits(s) {
            Some(value) => Some(SessionId { value }),
            None => None,
        }
    }

    /// The decimal wire form.
    pub fn to_string(&self) -> (r: String)
        ensures
            r@ == dec_digits(self.value as nat),
    {
        u128_to_dec_string(self.value)
    }
}

/// Identifier generated fresh per up-message; used only for client-side
/// bookkeeping of requests whose matching down-message is still pending.
///
/// Its wire form is the decimal string of `value`, carried in one header.
#[derive(Clone, Copy, PartialEq, Eq, Hash, Debug, Structural)]
pub struct CorId {
    pub value: u128,
}

impl CorId {
    pub fn new(value: u128) -> (r: Self)
        ensures
            r.value == value,
    {
        CorId { value }
    }

    /// Read a correlation id from its decimal wire form.
    pub fn parse(s: &str) -> (r: Option<CorId>)
        ensures
            r is Some <==> valid_dec_u128(s@),
            r is Some ==> r.unwrap().value == dec_value(s@),
    {
        match parse_u128_digits(s) {
            Some(value) => Some(CorId { value }),
            None => None,
        }
    }

    /// The decimal wire form.
    pub fn to_string(&self) -> (r: String)
        ensures
            r@ == dec_digits(self.value as nat),
    {
        u128_to_dec_string(self.value)
    }
}

/// Opaque bearer credential carried optionally on up-message requests;
/// absence means "unauthenticated". Verifying it is the handler's concern.
#[derive(Debug)]
pub struct AuthToken {
    pub token: String,
}

impl AuthToken {
    pub fn new(token: &str) -> (r: Self)
        ensures
            r.token@ == token@,
    {
        AuthToken { token: token.to_owned() }
    }

    /// The raw credential.
    pub fn token(&self) -> (r: &str)
        ensures
            r@ == self.token@,
    {
        self.token.as_str()
    }
}

impl Clone for AuthToken {
    fn clone(&self) -> (r: Self)
        ensures
            r.token@ == self.token@,
    {
        AuthToken { token: self.token.clone() }
    }
}

} // verus!
