//! Checks on what users submit: passwords, email addresses and subscription policies.
use vstd::prelude::*;
use crate::text::chars_of;

verus! {

/// Whether a password's length in bytes is acceptable: 8 to 128.
pub open spec fn password_ok(p: &str) -> bool {
    8 <= p.len() <= 128
}

/// `None` for an acceptable password, else the message that asks for another.
pub fn check_password(password: &str) -> (r: Option<&'static str>)
    ensures
        r is None <==> password_ok(password),
        r matches Some(m) ==> m@ == "Please use a password between 8 and 128 characters long."@,
{
    if password.len() <= 128 && password.len() >= 8 {
        None
    } else {
        Some("Please use a password between 8 and 128 characters long.")
    }
}

/// The message for an address that already has an account.
pub open spec fn email_taken() -> Seq<char> {
    "Sorry, your email address has already been registered. Please use a different email address or log in with your account."@
}

/// The message for an address longer than 64 bytes.
pub open spec fn email_too_long() -> Seq<char> {
    "Sorry, your email address is too long. Please use a different email address."@
}

/// `None` for an address that may open an account, else why it may not. The
/// lookup of `email` among the users is the caller's: `registered` is whether
/// it found a row.
pub fn check_email(email: &str, registered: bool) -> (r: Option<&'static str>)
    ensures
        email.len() > 64 ==> (r matches Some(m) && m@ == email_too_long()),
        email.len() <= 64 && registered ==> (r matches Some(m) && m@ == email_taken()),
        r is None <==> email.len() <= 64 && !registered,
{
    if email.len() <= 64 {
        if !registered {
            None
        } else {
            Some("Sorry, your email address has already been registered. Please use a different email address or log in with your account.")
        }
    } else {
        Some("Sorry, your email address is too long. Please use a different email address.")
    }
}

/// Whether `c` is a decimal digit.
pub open spec fn is_digit(c: char) -> bool {
    '0' <= c && c <= '9'
}

/// The number that a string of decimal digits writes.
pub open spec fn digits_value(s: Seq<char>) -> int
    decreases s.len(),
{
    if s.len() == 0 {
        0
    } else {
        digits_value(s.drop_last()) * 10 + (s.last() as int - '0' as int)
    }
}

/// The subscription policy that `s` names, read as a 32-bit integer is read in
/// Rust (an optional sign, then digits): 0, 1 or 2, else none.
pub open spec fn policy_of(s: Seq<char>) -> Option<int> {
    let d = unsigned_part(s);
    if d.len() == 0 || !all_digits(d) {
        None
    } else {
        let n = if has_sign(s) && s[0] == '-' { -digits_value(d) } else { digits_value(d) };
        if 0 <= n <= 2 { Some(n) } else { None }
    }
}

/// Whether `s` starts with a sign.
pub open spec fn has_sign(s: Seq<char>) -> bool {
    s.len() > 0 && (s[0] == '+' || s[0] == '-')
}

/// `s` without its sign.
pub open spec fn unsigned_part(s: Seq<char>) -> Seq<char> {
    if has_sign(s) { s.drop_first() } else { s }
}

/// Whether every character of `s` is a digit.
pub open spec fn all_digits(s: Seq<char>) -> bool {
    forall|i: int| 0 <= i < s.len() ==> is_digit(#[trigger] s[i])
}

proof fn lemma_digits_nonneg(s: Seq<char>)
    requires
        forall|i: int| 0 <= i < s.len() ==> is_digit(s[i]),
    ensures
        digits_value(s) >= 0,
    decreases s.len(),
{
    if s.len() > 0 {
        lemma_digits_nonneg(s.drop_last());
    }
}

/// The subscription policy named by `subscription`, if it names one.
pub fn subscription_policy(subscription: &str) -> (r: Option<u8>)
    ensures
        r matches Some(n) ==> policy_of(subscription@) == Some(n as int),
        r is None ==> policy_of(subscription@) is None,
{
    let s = chars_of(subscription);
    let signed = s.len() > 0 && (s[0] == '+' || s[0] == '-');
    let start: usize = if signed { 1 } else { 0 };
    let ghost d = if signed { s@.drop_first() } else { s@ };
    if s.len() <= start {
        return None;
    }
    let mut capped: u32 = 0;
    let mut i: usize = start;
    while i < s.len()
        invariant
            start <= i <= s@.len(),
            s@ == subscription@,
            signed == has_sign(s@),
            start == (if signed { 1usize } else { 0usize }),
            d == unsigned_part(s@),
            d == s@.subrange(start as int, s@.len() as int),
            forall|j: int| 0 <= j < i - start ==> is_digit(d[j]),
            capped <= 3,
            capped == if digits_value(d.subrange(0, i - start)) >= 3 { 3 } else { digits_value(d.subrange(0, i - start)) },
        decreases s@.len() - i,
    {
        let c = s[i];
        if !('0' <= c && c <= '9') {
            assert(d[i - start] == s@[i as int]);
            assert(!is_digit(d[i - start]));
            assert(!all_digits(d));
            return None;
        }
        proof {
            let pre = d.subrange(0, i - start);
            let next = d.subrange(0, i - start + 1);
            assert(next.drop_last() == pre);
            lemma_digits_nonneg(pre);
        }
        let v = (c as u32) - ('0' as u32);
        if capped < 3 {
            capped = capped * 10 + v;
            if capped > 3 {
                capped = 3;
            }
        }
        i += 1;
    }
    assert(d.subrange(0, d.len() as int) == d);
    if signed && s[0] == '-' {
        if capped == 0 { Some(0) } else { None }
    } else if capped <= 2 {
        Some(capped as u8)
    } else {
        None
    }
}

/// `None` for a valid subscription policy, else the message that refuses it.
pub fn check_subscription(subscription: &str) -> (r: Option<&'static str>)
    ensures
        r is None <==> policy_of(subscription@) is Some,
        r matches Some(m) ==> m@ == "Invalid subscription policy!"@,
{
    match subscription_policy(subscription) {
        Some(_) => None,
        None => Some("Invalid subscription policy!"),
    }
}

} // verus!
