use vstd::prelude::*;

use crate::errors::TextError;
use crate::utils::{dec_digits_of, lower_of, lowercase, u64_to_string};
use hmac::Mac;
use jwt::SignWithKey;
use jwt::VerifyWithKey;
use std::collections::BTreeMap;

verus! {

/// The signing half of the JWT utility. Stateless: every operation is a
/// pure function of its explicit inputs.
pub struct JwtSigner {}

/// The verifying half of the JWT utility. Stateless as well.
pub struct JwtVerifier {}

/// The HS256 JWT with claims `sub`, `aud` and `exp` (in their canonical
/// sorted order) signed under `key`. A function of its arguments alone;
/// only the jwt, hmac and sha2 crates pin it down.
pub uninterp spec fn jwt_hs256_token_of(
    key: Seq<u8>,
    sub: Seq<char>,
    aud: Seq<char>,
    exp: Seq<char>,
) -> Seq<char>;

/// Whether HS256 verification of `token` under `key` succeeds: the token
/// parses as header and claims and its signature matches.
pub uninterp spec fn jwt_hs256_accepts(key: Seq<u8>, token: Seq<char>) -> bool;

/// Relies on jwt's `SignWithKey` over an `Hmac<Sha256>` key: the token
/// depends on the key and claims alone (the claim map and the JSON
/// serialization are both ordered), and the crate's `VerifyWithKey`
/// accepts what `SignWithKey` produced.
#[verifier::external_body]
fn jwt_sign_hs256(key: &[u8], sub: &str, aud: &str, exp: &str) -> (r: Result<String, TextError>)
    ensures
        r matches Ok(t) ==> t@ == jwt_hs256_token_of(key@, sub@, aud@, exp@),
        r matches Ok(t) ==> jwt_hs256_accepts(key@, t@),
        r matches Err(e) ==> e == TextError::SigningFailed,
{
    let hkey: hmac::Hmac<sha2::Sha256> = match hmac::Hmac::new_from_slice(key) {
        Ok(k) => k,
        Err(_) => return Err(TextError::SigningFailed),
    };
    let header = jwt::Header { algorithm: jwt::AlgorithmType::Hs256, ..Default::default() };
    let mut claims = BTreeMap::new();
    claims.insert("sub", sub.to_string());
    claims.insert("aud", aud.to_string());
    claims.insert("exp", exp.to_string());
    let token = jwt::Token::new(header, claims).sign_with_key(&hkey).map_err(
        |_| TextError::SigningFailed,
    )?;
    Ok(token.into())
}

/// Relies on jwt's `VerifyWithKey` over an `Hmac<Sha256>` key: a
/// deterministic check of the token under the key.
#[verifier::external_body]
fn jwt_verify_hs256(key: &[u8], token: &str) -> (r: bool)
    ensures
        r == jwt_hs256_accepts(key@, token@),
{
    let hkey: hmac::Hmac<sha2::Sha256> = match hmac::Hmac::new_from_slice(key) {
        Ok(k) => k,
        Err(_) => return false,
    };
    let parsed: Result<jwt::Token<jwt::Header, BTreeMap<String, String>, _>, jwt::Error> =
        token.verify_with_key(&hkey);
    parsed.is_ok()
}

/// Relies on std's `SystemTime::now`: the seconds since the Unix epoch,
/// failing only when the clock reads before the epoch. Nothing can be
/// promised of the value itself.
#[verifier::external_body]
fn unix_now() -> (r: Result<u64, TextError>)
    ensures
        r matches Err(e) ==> e == TextError::IoError,
{
    match std::time::SystemTime::now().duration_since(std::time::UNIX_EPOCH) {
        Ok(d) => Ok(d.as_secs()),
        Err(_) => Err(TextError::IoError),
    }
}

/// The expiry stamp a token signed now carries: the current time plus the
/// requested lifetime, saturating at the largest representable stamp.
pub open spec fn jwt_expiry_of(now: u64, exp: u64) -> u64 {
    if now + exp <= u64::MAX {
        (now + exp) as u64
    } else {
        u64::MAX
    }
}

/// Sign an HS256 JWT carrying subject `sub`, audience `aud`, and an `exp`
/// claim of the current time plus `exp` seconds, rendered in decimal. Any
/// token this returns verifies under the same key.
pub fn process_jwt_sign(key: &[u8], sub: String, aud: String, exp: u64) -> (r: Result<
    String,
    TextError,
>)
    ensures
        r matches Ok(t) ==> exists|now: u64|
            t@ == jwt_hs256_token_of(
                key@,
                sub@,
                aud@,
                dec_digits_of(jwt_expiry_of(now, exp) as nat),
            ),
        r matches Ok(t) ==> jwt_hs256_accepts(key@, t@),
        r matches Err(e) ==> e == TextError::IoError || e == TextError::SigningFailed,
{
    let now = unix_now()?;
    let stamp: u64 = if exp <= u64::MAX - now {
        now + exp
    } else {
        u64::MAX
    };
    let exp_str = u64_to_string(stamp);
    let token = jwt_sign_hs256(key, sub.as_str(), aud.as_str(), exp_str.as_str())?;
    proof {
        assert(stamp == jwt_expiry_of(now, exp));
    }
    Ok(token)
}

/// Verify an HS256 JWT under `key`: the boolean outcome of the signature
/// and structure check. A failing token is `false`, never an error.
pub fn process_jwt_verify(key: &[u8], token: &str) -> (r: bool)
    ensures
        r == jwt_hs256_accepts(key@, token@),
{
    jwt_verify_hs256(key, token)
}

/// How many seconds one unit letter stands for: `s`, `m`, `h` or `d`.
pub open spec fn exp_unit_secs(c: char) -> Option<u64> {
    if c == 's' {
        Some(1u64)
    } else if c == 'm' {
        Some(60u64)
    } else if c == 'h' {
        Some(3600u64)
    } else if c == 'd' {
        Some(86400u64)
    } else {
        None
    }
}

/// Whether `c` is an ASCII digit.
pub open spec fn is_digit_char(c: char) -> bool {
    48 <= c as u32 <= 57
}

/// The value of an ASCII digit.
pub open spec fn digit_val(c: char) -> int {
    c as u32 - 48
}

/// One step of the duration parser: digits accumulate into the current
/// number; a unit letter closes the current number (which must not be
/// empty) and adds its seconds to the running total; anything else, or any
/// value beyond `u64::MAX`, rejects the input.
pub open spec fn parse_exp_step(cur: Option<u64>, total: u64, c: char) -> Option<
    (Option<u64>, u64),
> {
    if is_digit_char(c) {
        let base: int = match cur {
            Some(v) => v as int,
            None => 0,
        };
        let v = base * 10 + digit_val(c);
        if v <= u64::MAX {
            Some((Some(v as u64), total))
        } else {
            None
        }
    } else {
        match exp_unit_secs(c) {
            None => None,
            Some(m) => match cur {
                None => None,
                Some(v) => {
                    let t = total as int + v as int * m as int;
                    if t <= u64::MAX {
                        Some((Option::<u64>::None, t as u64))
                    } else {
                        None
                    }
                },
            },
        }
    }
}

/// The parser state after consuming `s`: the pending number, if any, and
/// the seconds accumulated so far.
pub open spec fn parse_exp_state(s: Seq<char>) -> Option<(Option<u64>, u64)>
    decreases s.len(),
{
    if s.len() == 0 {
        Some((Option::<u64>::None, 0u64))
    } else {
        match parse_exp_state(s.drop_last()) {
            None => None,
            Some((cur, total)) => parse_exp_step(cur, total, s.last()),
        }
    }
}

/// The duration, in seconds, that the lowercased string `s` denotes:
/// digit runs weighted by their unit letter, a trailing run counting as
/// seconds. `None` on malformed input or any overflow past `u64::MAX`.
pub open spec fn parse_exp_spec(s: Seq<char>) -> Option<u64> {
    match parse_exp_state(s) {
        None => None,
        Some((cur, total)) => match cur {
            None => Some(total),
            Some(v) => {
                if total as int + v as int <= u64::MAX {
                    Some((total + v) as u64)
                } else {
                    None
                }
            },
        },
    }
}


/// Once the parser state is `None` for a prefix, it is `None` for the
/// whole string.
proof fn lemma_parse_exp_none_absorbs(s: Seq<char>, j: int)
    requires
        0 <= j <= s.len(),
        parse_exp_state(s.take(j)) is None,
    ensures
        parse_exp_state(s) is None,
    decreases s.len() - j,
{
    if j == s.len() {
        assert(s.take(j) =~= s);
    } else {
        assert(s.take(j + 1).drop_last() =~= s.take(j));
        lemma_parse_exp_none_absorbs(s, j + 1);
    }
}

/// Parse a duration such as `1s100m1h` into seconds. Unit letters are
/// case-insensitive; a number with no unit counts as seconds; a malformed
/// or overflowing input is an error, never a panic.
pub fn parse_exp(duration: &str) -> (r: Result<u64, String>)
    ensures
        r matches Ok(n) ==> parse_exp_spec(lower_of(duration@)) == Some(n),
        r is Err ==> parse_exp_spec(lower_of(duration@)) is None,
{
    let lowered = lowercase(duration);
    parse_exp_lowered(lowered.as_str())
}

/// Parse a duration whose unit letters are already lower case: exactly the
/// inputs `parse_exp_spec` accepts, with exactly its values.
pub fn parse_exp_lowered(s: &str) -> (r: Result<u64, String>)
    ensures
        r matches Ok(n) ==> parse_exp_spec(s@) == Some(n),
        r is Err ==> parse_exp_spec(s@) is None,
{
    let n = s.unicode_len();
    let mut has_cur: bool = false;
    let mut cur: u64 = 0;
    let mut total: u64 = 0;
    let mut i: usize = 0;
    while i < n
        invariant
            n == s@.len(),
            i <= n,
            parse_exp_state(s@.take(i as int)) == Some(
                (if has_cur { Some(cur) } else { Option::<u64>::None }, total),
            ),
        decreases n - i,
    {
        let c = s.get_char(i);
        proof {
            assert(s@.take(i as int + 1).last() == s@[i as int]);
            assert(s@.take(i as int + 1).drop_last() =~= s@.take(i as int));
        }
        let cu = c as u32;
        if 48 <= cu && cu <= 57 {
            let d = (cu - 48) as u64;
            let base = if has_cur {
                cur
            } else {
                0
            };
            let scaled = match base.checked_mul(10) {
                Some(v) => v,
                None => {
                    proof {
                        lemma_parse_exp_none_absorbs(s@, i as int + 1);
                    }
                    return Err(invalid_exp_message());
                },
            };
            let v = match scaled.checked_add(d) {
                Some(v) => v,
                None => {
                    proof {
                        lemma_parse_exp_none_absorbs(s@, i as int + 1);
                    }
                    return Err(invalid_exp_message());
                },
            };
            has_cur = true;
            cur = v;
        } else {
            let m: u64 = if c == 's' {
                1
            } else if c == 'm' {
                60
            } else if c == 'h' {
                3600
            } else if c == 'd' {
                86400
            } else {
                proof {
                    lemma_parse_exp_none_absorbs(s@, i as int + 1);
                }
                return Err(invalid_exp_message());
            };
            if !has_cur {
                proof {
                    lemma_parse_exp_none_absorbs(s@, i as int + 1);
                }
                return Err(invalid_exp_message());
            }
            let weighted = match cur.checked_mul(m) {
                Some(v) => v,
                None => {
                    proof {
                        lemma_parse_exp_none_absorbs(s@, i as int + 1);
                    }
                    return Err(invalid_exp_message());
                },
            };
            let t = match total.checked_add(weighted) {
                Some(v) => v,
                None => {
                    proof {
                        lemma_parse_exp_none_absorbs(s@, i as int + 1);
                    }
                    return Err(invalid_exp_message());
                },
            };
            has_cur = false;
            cur = 0;
            total = t;
        }
        i = i + 1;
    }
    proof {
        assert(s@.take(n as int) =~= s@);
    }
    if has_cur {
        match total.checked_add(cur) {
            Some(t) => Ok(t),
            None => Err(invalid_exp_message()),
        }
    } else {
        Ok(total)
    }
}

fn invalid_exp_message() -> (r: String)
    ensures
        true,
{
    String::from_str("invalid exp")
}

} // verus!
