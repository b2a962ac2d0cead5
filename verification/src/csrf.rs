//! Cross-site request forgery protection: masking of the secret that the
//! cookie holds, validation of the token a request presents, and the decision
//! whether a request may pass.
use rand::distributions::{Alphanumeric, DistString};
use vstd::prelude::*;

verus! {

/// Name of the cookie that holds the CSRF secret.
pub const CSRF_COOKIE_NAME: &'static str = "csrf-token";

/// Number of characters of a CSRF secret.
pub const CSRF_SECRET_LENGTH: usize = 32;

/// Number of characters (and bytes) of a masked CSRF token: a mask followed by
/// the masked secret.
pub const CSRF_TOKEN_LENGTH: usize = 64;

/// Number of characters in the alphabet that secrets and masks are drawn from.
pub const ALPHANUMERIC_RANGE: usize = 62;

/// The alphabet of secrets and masks: `a-z`, `A-Z`, `0-9`.
pub open spec fn is_alnum(c: char) -> bool {
    ('a' <= c <= 'z') || ('A' <= c <= 'Z') || ('0' <= c <= '9')
}

/// Whether every character of a text is in the alphabet.
pub open spec fn all_alnum(s: Seq<char>) -> bool {
    forall|i: int| 0 <= i < s.len() ==> #[trigger] is_alnum(s[i])
}

/// Position of a character in the alphabet `a..z A..Z 0..9`.
pub open spec fn alnum_pos(c: char) -> int {
    if 'a' <= c <= 'z' {
        c as int - 'a' as int
    } else if 'A' <= c <= 'Z' {
        26 + (c as int - 'A' as int)
    } else {
        52 + (c as int - '0' as int)
    }
}

/// Character at a position of the alphabet `a..z A..Z 0..9`.
pub open spec fn alnum_char(k: int) -> char {
    if k < 26 {
        ('a' as int + k) as char
    } else if k < 52 {
        ('A' as int + (k - 26)) as char
    } else {
        ('0' as int + (k - 52)) as char
    }
}

/// Difference of two alphabet positions, taken modulo the alphabet's size.
pub open spec fn sub_mod(x: int, y: int) -> int {
    if x >= y {
        x - y
    } else {
        62 - (y - x)
    }
}

/// The smaller of two lengths.
pub open spec fn min_len(a: int, b: int) -> int {
    if a < b {
        a
    } else {
        b
    }
}

/// The inputs on which masking does not fail: every character of `chars`
/// that is taken (one more than the mask covers) and every character of the
/// mask that is paired with one of them is alphanumeric.
pub open spec fn mask_op_input_ok(mask: Seq<char>, chars: Seq<char>) -> bool {
    &&& forall|i: int|
        0 <= i < min_len(chars.len() as int, mask.len() as int + 1) ==> #[trigger] is_alnum(chars[i])
    &&& forall|i: int|
        0 <= i < min_len(chars.len() as int, mask.len() as int) ==> #[trigger] is_alnum(mask[i])
}

/// Character-wise masking: each character of `chars` is shifted by the
/// alphabet position of the mask character at the same index, forward when
/// `add` holds and backward otherwise, modulo the alphabet's size. The result
/// is as long as the shorter of the two.
pub open spec fn spec_mask_op(mask: Seq<char>, chars: Seq<char>, add: bool) -> Seq<char> {
    Seq::new(
        min_len(chars.len() as int, mask.len() as int) as nat,
        |i: int|
            if add {
                alnum_char((alnum_pos(chars[i]) + alnum_pos(mask[i])) % 62)
            } else {
                alnum_char(sub_mod(alnum_pos(chars[i]), alnum_pos(mask[i])))
            },
    )
}

/// The secret that a masked token carries: its tail unmasked by its head.
pub open spec fn spec_unmask(token: Seq<char>) -> Seq<char> {
    spec_mask_op(token.take(32), token.skip(32), false)
}

/// Length in bytes of the UTF-8 encoding of a string, as `str::len` gives it.
pub open spec fn byte_len(s: Seq<char>) -> usize {
    vstd::utf8::encode_utf8(s).len() as usize
}

/// Whether a request token matches the secret: a token of exactly 64 bytes is
/// unmasked first, any other token must equal the secret.
pub open spec fn spec_validate_token(token: Seq<char>, secret: Seq<char>) -> bool {
    if byte_len(token) == CSRF_TOKEN_LENGTH {
        spec_unmask(token) == secret
    } else {
        token == secret
    }
}

/// The tokens that validation can unmask: one of 64 bytes must be
/// alphanumeric.
pub open spec fn validate_token_input_ok(token: Seq<char>) -> bool {
    byte_len(token) == CSRF_TOKEN_LENGTH ==> all_alnum(token)
}

/// The character at an alphabet position is in the alphabet, at that position.
pub proof fn lemma_alnum_roundtrip(k: int)
    requires
        0 <= k < 62,
    ensures
        is_alnum(alnum_char(k)),
        alnum_pos(alnum_char(k)) == k,
{
}

/// An alphabet character has a position in the alphabet, and is the
/// character at that position.
pub proof fn lemma_alnum_pos_range(c: char)
    requires
        is_alnum(c),
    ensures
        0 <= alnum_pos(c) < 62,
        alnum_char(alnum_pos(c)) == c,
{
}

proof fn lemma_alnum_is_ascii(s: Seq<char>)
    requires
        all_alnum(s),
    ensures
        vstd::utf8::is_ascii_chars(s),
        vstd::utf8::encode_utf8(s).len() == s.len(),
{
    assert forall|i: int| 0 <= i < s.len() implies '\0' <= #[trigger] s[i] <= '\u{7f}' by {
        assert(is_alnum(s[i]));
    }
    vstd::utf8::is_ascii_chars_encode_utf8(s);
}

/// Appends a character to a string (`String::push`).
#[verifier::external_body]
fn push_char(s: &mut String, c: char)
    ensures
        final(s)@ == old(s)@.push(c),
{
    s.push(c)
}

/// A fresh random CSRF secret, drawn with `rand`'s `Alphanumeric` distribution
/// (`DistString::sample_string`). Stated of every outcome: it has
/// `CSRF_SECRET_LENGTH` characters, each one of `a-z`, `A-Z`, `0-9`. Which
/// characters come out is left open.
#[verifier::external_body]
pub fn generate_csrf() -> (r: String)
    ensures
        r@.len() == CSRF_SECRET_LENGTH,
        all_alnum(r@),
{
    Alphanumeric.sample_string(&mut rand::thread_rng(), CSRF_SECRET_LENGTH)
}

fn alnum_index(c: char) -> (k: usize)
    requires
        is_alnum(c),
    ensures
        k == alnum_pos(c),
        k < 62,
{
    if 'a' <= c && c <= 'z' {
        (c as u32 - 'a' as u32) as usize
    } else if 'A' <= c && c <= 'Z' {
        (26 + (c as u32 - 'A' as u32)) as usize
    } else {
        (52 + (c as u32 - '0' as u32)) as usize
    }
}

fn alnum_at(k: usize) -> (c: char)
    requires
        k < 62,
    ensures
        c == alnum_char(k as int),
{
    let b: u8 = k as u8;
    if b < 26 {
        (97u8 + b) as char
    } else if b < 52 {
        (65u8 + (b - 26)) as char
    } else {
        (48u8 + (b - 52)) as char
    }
}

/// Subtraction of alphabet positions that wraps into the alphabet: `x - y`
/// when that does not underflow, and `62 - (y - x)` otherwise.
pub fn overflowing_sub_chars(x: usize, y: usize) -> (r: usize)
    requires
        x >= y || y - x <= ALPHANUMERIC_RANGE,
    ensures
        r == sub_mod(x as int, y as int),
{
    if x >= y {
        x - y
    } else {
        let value: usize = x.wrapping_sub(y);
        assert(value == usize::MAX + 1 + x - y);
        let value: usize = usize::MAX - value;
        ALPHANUMERIC_RANGE - 1 - value
    }
}

/// Shifts each character of `chars` by the alphabet position of the mask
/// character at the same index, forward when `add` holds and backward
/// otherwise, modulo the alphabet's size.
pub fn mask_op(mask: &str, chars: &str, add: bool) -> (r: String)
    requires
        mask_op_input_ok(mask@, chars@),
    ensures
        r@ == spec_mask_op(mask@, chars@, add),
{
    let n_chars: usize = chars.unicode_len();
    let n_mask: usize = mask.unicode_len();
    let n: usize = if n_chars < n_mask {
        n_chars
    } else {
        n_mask
    };
    let mut out = String::new();
    let mut i: usize = 0;
    while i < n
        invariant
            n == min_len(chars@.len() as int, mask@.len() as int),
            n_chars == chars@.len(),
            n_mask == mask@.len(),
            i <= n,
            mask_op_input_ok(mask@, chars@),
            out@ == spec_mask_op(mask@, chars@, add).take(i as int),
        decreases n - i,
    {
        let c = chars.get_char(i);
        let m = mask.get_char(i);
        assert(is_alnum(chars@[i as int]));
        assert(is_alnum(mask@[i as int]));
        let x = alnum_index(c);
        let y = alnum_index(m);
        let k: usize = if add {
            (x + y) % ALPHANUMERIC_RANGE
        } else {
            overflowing_sub_chars(x, y)
        };
        let ch = alnum_at(k);
        push_char(&mut out, ch);
        assert(out@ =~= spec_mask_op(mask@, chars@, add).take(i + 1));
        i = i + 1;
    }
    assert(out@ =~= spec_mask_op(mask@, chars@, add));
    out
}

/// Masks a secret with a fresh random mask: the result is the mask followed by
/// the secret shifted character-wise by the mask.
pub fn mask_csrf(secret: &str) -> (r: String)
    requires
        forall|i: int|
            0 <= i < min_len(secret@.len() as int, CSRF_SECRET_LENGTH + 1) ==> #[trigger] is_alnum(
                secret@[i],
            ),
    ensures
        r@.len() == CSRF_SECRET_LENGTH + min_len(secret@.len() as int, CSRF_SECRET_LENGTH as int),
        all_alnum(r@.take(CSRF_SECRET_LENGTH as int)),
        r@.skip(CSRF_SECRET_LENGTH as int) == spec_mask_op(
            r@.take(CSRF_SECRET_LENGTH as int),
            secret@,
            true,
        ),
{
    let mask_str = generate_csrf();
    let out = mask_op(mask_str.as_str(), secret, true);
    let r = mask_str.concat(out.as_str());
    assert(r@.take(CSRF_SECRET_LENGTH as int) =~= mask_str@);
    assert(r@.skip(CSRF_SECRET_LENGTH as int) =~= out@);
    r
}

/// Recovers the secret from a masked token: the first `CSRF_SECRET_LENGTH`
/// characters are the mask, the rest the masked secret. The mask is taken as
/// that many bytes, so it is required to be ASCII; a token of exactly that
/// many bytes has nothing to unmask.
pub fn unmask_csrf(token: &str) -> (r: String)
    requires
        byte_len(token@) == CSRF_SECRET_LENGTH || {
            &&& token@.len() >= CSRF_SECRET_LENGTH
            &&& vstd::utf8::is_ascii_chars(token@.take(CSRF_SECRET_LENGTH as int))
            &&& mask_op_input_ok(
                token@.take(CSRF_SECRET_LENGTH as int),
                token@.skip(CSRF_SECRET_LENGTH as int),
            )
        },
    ensures
        byte_len(token@) == CSRF_SECRET_LENGTH ==> r@ == Seq::<char>::empty(),
        byte_len(token@) != CSRF_SECRET_LENGTH ==> r@ == spec_unmask(token@),
{
    if token.len() == CSRF_SECRET_LENGTH {
        return String::new();
    }
    let len: usize = token.unicode_len();
    let mask = token.substring_char(0, CSRF_SECRET_LENGTH);
    let rest = token.substring_char(CSRF_SECRET_LENGTH, len);
    assert(mask@ =~= token@.take(32));
    assert(rest@ =~= token@.skip(32));
    mask_op(mask, rest, false)
}

/// Whether the token a request presents matches the secret of the cookie.
/// A token of `CSRF_TOKEN_LENGTH` bytes is a masked token and is unmasked
/// first; any other token must equal the secret itself.
pub fn validate_token(request_token: &str, secret: &str) -> (r: bool)
    requires
        validate_token_input_ok(request_token@),
    ensures
        r == spec_validate_token(request_token@, secret@),
{
    if request_token.len() == CSRF_TOKEN_LENGTH {
        proof {
            lemma_alnum_is_ascii(request_token@);
            assert forall|i: int|
                0 <= i < min_len(request_token@.skip(32).len() as int, 33) implies #[trigger] is_alnum(
                request_token@.skip(32)[i],
            ) by {
                assert(request_token@.skip(32)[i] == request_token@[i + 32]);
            }
            assert forall|i: int| 0 <= i < 32 implies #[trigger] is_alnum(
                request_token@.take(32)[i],
            ) by {
                assert(request_token@.take(32)[i] == request_token@[i]);
            }
        }
        let token = unmask_csrf(request_token);
        let expected = secret.to_owned();
        token == expected
    } else {
        let presented = request_token.to_owned();
        let expected = secret.to_owned();
        presented == expected
    }
}

/// Masking a secret and unmasking the result gives the secret back, for any
/// alphanumeric mask and any alphanumeric secret no longer than the mask.
pub proof fn lemma_unmask_masked(mask: Seq<char>, secret: Seq<char>)
    requires
        mask.len() == CSRF_SECRET_LENGTH,
        all_alnum(mask),
        all_alnum(secret),
        secret.len() <= CSRF_SECRET_LENGTH,
    ensures
        spec_unmask(mask + spec_mask_op(mask, secret, true)) == secret,
{
    let masked = spec_mask_op(mask, secret, true);
    let token = mask + masked;
    assert(token.take(32) =~= mask);
    assert(token.skip(32) =~= masked);
    assert forall|i: int| 0 <= i < secret.len() implies #[trigger] spec_unmask(token)[i]
        == secret[i] by {
        assert(is_alnum(secret[i]));
        assert(is_alnum(mask[i]));
        lemma_alnum_pos_range(secret[i]);
        lemma_alnum_pos_range(mask[i]);
        let x = alnum_pos(secret[i]);
        let y = alnum_pos(mask[i]);
        lemma_alnum_roundtrip((x + y) % 62);
        assert(alnum_pos(masked[i]) == (x + y) % 62);
        assert(sub_mod((x + y) % 62, y) == x);
        lemma_alnum_roundtrip(x);
    }
    assert(spec_unmask(token) =~= secret);
}

/// A masked token of an alphanumeric secret of `CSRF_SECRET_LENGTH` characters
/// validates against that secret, whatever the mask.
pub proof fn lemma_masked_token_validates(mask: Seq<char>, secret: Seq<char>)
    requires
        mask.len() == CSRF_SECRET_LENGTH,
        all_alnum(mask),
        all_alnum(secret),
        secret.len() == CSRF_SECRET_LENGTH,
    ensures
        validate_token_input_ok(mask + spec_mask_op(mask, secret, true)),
        spec_validate_token(mask + spec_mask_op(mask, secret, true), secret),
{
    let masked = spec_mask_op(mask, secret, true);
    let token = mask + masked;
    assert forall|i: int| 0 <= i < masked.len() implies #[trigger] is_alnum(masked[i]) by {
        assert(is_alnum(secret[i]));
        assert(is_alnum(mask[i]));
        lemma_alnum_pos_range(secret[i]);
        lemma_alnum_pos_range(mask[i]);
        lemma_alnum_roundtrip((alnum_pos(secret[i]) + alnum_pos(mask[i])) % 62);
    }
    assert forall|i: int| 0 <= i < token.len() implies #[trigger] is_alnum(token[i]) by {
        if i < 32 {
            assert(token[i] == mask[i]);
        } else {
            assert(token[i] == masked[i - 32]);
        }
    }
    lemma_alnum_is_ascii(token);
    lemma_unmask_masked(mask, secret);
}

/// A token that is not 64 bytes long validates against itself.
pub proof fn lemma_secret_validates_itself(secret: Seq<char>)
    requires
        byte_len(secret) != CSRF_TOKEN_LENGTH,
    ensures
        validate_token_input_ok(secret),
        spec_validate_token(secret, secret),
{
}

/// The hosts from which cross-origin requests are accepted.
#[derive(Debug, Clone)]
pub struct CsrfLayer {
    pub allowed_hosts: Vec<String>,
}

/// The views of a list of strings.
pub open spec fn string_views(v: Seq<String>) -> Seq<Seq<char>> {
    v.map_values(|s: String| s@)
}

/// Whether a list of strings holds a string.
pub fn contains_string(list: &Vec<String>, item: &String) -> (r: bool)
    ensures
        r == string_views(list@).contains(item@),
{
    let mut i: usize = 0;
    while i < list.len()
        invariant
            i <= list.len(),
            forall|j: int| 0 <= j < i ==> list@[j]@ != item@,
        decreases list.len() - i,
    {
        if list[i] == *item {
            assert(string_views(list@)[i as int] == item@);
            return true;
        }
        i = i + 1;
    }
    assert forall|j: int| 0 <= j < string_views(list@).len() implies string_views(list@)[j]
        != item@ by {
        assert(list@[j]@ != item@);
    }
    false
}

impl CsrfLayer {
    /// A layer that accepts cross-origin requests from these hosts.
    pub fn new(allowed_origins: Vec<String>) -> (r: Self)
        ensures
            r.allowed_hosts == allowed_origins,
    {
        Self { allowed_hosts: allowed_origins }
    }

    /// Whether every origin is allowed: the list holds `"*"`.
    pub fn allows_any_host(&self) -> (r: bool)
        ensures
            r == string_views(self.allowed_hosts@).contains("*"@),
    {
        let wildcard = String::from_str("*");
        contains_string(&self.allowed_hosts, &wildcard)
    }
}

/// Why a cookie check failed.
#[derive(Debug, Clone, Copy, PartialEq, Eq, Structural)]
pub enum CsrfCookieError {
    MissingCookie,
    InvalidHeader,
    ValidationError,
}

/// A request header as the checks see it: absent, present but not visible
/// ASCII text, or text.
#[derive(Debug, Clone)]
pub enum HeaderValue {
    Missing,
    NotText,
    Text(String),
}

/// The CSRF headers that the cookie check can validate.
pub open spec fn header_input_ok(header: HeaderValue) -> bool {
    header matches HeaderValue::Text(h) ==> validate_token_input_ok(h@)
}

/// The outcome of the cookie check: no cookie, no text header, or whether
/// the header's token validates against the cookie's secret.
pub open spec fn spec_check_cookie(cookie: Option<Seq<char>>, header: HeaderValue) -> Result<
    (),
    CsrfCookieError,
> {
    match cookie {
        None => Err(CsrfCookieError::MissingCookie),
        Some(secret) => match header {
            HeaderValue::Text(token) => if spec_validate_token(token@, secret) {
                Ok(())
            } else {
                Err(CsrfCookieError::ValidationError)
            },
            _ => Err(CsrfCookieError::InvalidHeader),
        },
    }
}

/// Checks the CSRF header of a request against the secret of its CSRF
/// cookie. When the cookie is missing the caller sets a fresh one.
pub fn check_cookie(cookie: Option<&str>, header: &HeaderValue) -> (r: Result<(), CsrfCookieError>)
    requires
        cookie is Some ==> header_input_ok(*header),
    ensures
        r == spec_check_cookie(
            match cookie {
                Some(c) => Some(c@),
                None => None,
            },
            *header,
        ),
{
    let secret = match cookie {
        Some(c) => c,
        None => return Err(CsrfCookieError::MissingCookie),
    };
    match header {
        HeaderValue::Text(token) => {
            if validate_token(token.as_str(), secret) {
                Ok(())
            } else {
                Err(CsrfCookieError::ValidationError)
            }
        },
        _ => Err(CsrfCookieError::InvalidHeader),
    }
}

/// Why a request is turned away.
#[derive(Debug, Clone, Copy, PartialEq, Eq, Structural)]
pub enum CsrfRejection {
    /// 400, "Misssing host header"
    MissingHost,
    /// 400, "Invalid Host header"
    InvalidHost,
    /// 400, an `Origin` header that is not text
    InvalidOrigin,
    /// 403, "CSRF Error"
    CsrfError,
}

/// The outcome of the CSRF check of a request, and whether the request had no
/// CSRF cookie when its cookie was checked (the caller then sets a fresh one).
#[derive(Debug, Clone, Copy)]
pub struct CsrfDecision {
    pub result: Result<(), CsrfRejection>,
    pub cookie_missing: bool,
}

/// The origin a request to `host` has when it comes from this server.
pub open spec fn spec_own_origin(secure: bool, host: Seq<char>) -> Seq<char> {
    if secure {
        "https://"@ + host
    } else {
        "http://"@ + host
    }
}

/// What the cookie step adds to a decision: a failed validation rejects the
/// request, any other outcome lets it pass.
pub open spec fn spec_cookie_step(cookie: Option<Seq<char>>, header: HeaderValue) -> CsrfDecision {
    let c = spec_check_cookie(cookie, header);
    CsrfDecision {
        result: if c == Err::<(), CsrfCookieError>(CsrfCookieError::ValidationError) {
            Err(CsrfRejection::CsrfError)
        } else {
            Ok(())
        },
        cookie_missing: c == Err::<(), CsrfCookieError>(CsrfCookieError::MissingCookie),
    }
}

/// The CSRF decision for a request. Safe methods (GET, HEAD, OPTIONS, TRACE)
/// only have their cookie checked. Other requests need a text `Host` header;
/// an `Origin` header, where there is one, must be text and either be this
/// server's own origin, or the list of allowed hosts must hold `"*"` or that
/// origin; then the cookie is checked.
pub open spec fn spec_check_csrf(
    safe_method: bool,
    host: HeaderValue,
    origin: HeaderValue,
    secure: bool,
    allowed_hosts_wildcard: bool,
    allowed_hosts: Seq<Seq<char>>,
    cookie: Option<Seq<char>>,
    csrf_header: HeaderValue,
) -> CsrfDecision {
    let no_cookie_step = |r: Result<(), CsrfRejection>| CsrfDecision { result: r, cookie_missing: false };
    if safe_method {
        spec_cookie_step(cookie, csrf_header)
    } else {
        match host {
            HeaderValue::Missing => no_cookie_step(Err(CsrfRejection::MissingHost)),
            HeaderValue::NotText => no_cookie_step(Err(CsrfRejection::InvalidHost)),
            HeaderValue::Text(h) => match origin {
                HeaderValue::NotText => no_cookie_step(Err(CsrfRejection::InvalidOrigin)),
                HeaderValue::Text(o) => {
                    let own = spec_own_origin(secure, h@);
                    if !(own == o@ || allowed_hosts_wildcard || allowed_hosts.contains(own)) {
                        no_cookie_step(Err(CsrfRejection::CsrfError))
                    } else {
                        spec_cookie_step(cookie, csrf_header)
                    }
                },
                HeaderValue::Missing => spec_cookie_step(cookie, csrf_header),
            },
        }
    }
}

/// Whether a request gets as far as the check of its CSRF cookie: a safe
/// method always does; another one needs a text `Host` header and an
/// `Origin` header that is absent, or text that the origin check accepts.
pub open spec fn spec_reaches_cookie_check(
    safe_method: bool,
    host: HeaderValue,
    origin: HeaderValue,
    secure: bool,
    allowed_hosts_wildcard: bool,
    allowed_hosts: Seq<Seq<char>>,
) -> bool {
    safe_method || match host {
        HeaderValue::Text(h) => match origin {
            HeaderValue::Missing => true,
            HeaderValue::NotText => false,
            HeaderValue::Text(o) => {
                let own = spec_own_origin(secure, h@);
                own == o@ || allowed_hosts_wildcard || allowed_hosts.contains(own)
            },
        },
        _ => false,
    }
}

/// Whether a request gets as far as the check of its CSRF cookie.
pub fn reaches_cookie_check(
    safe_method: bool,
    host: &HeaderValue,
    origin: &HeaderValue,
    secure: bool,
    allowed_hosts_wildcard: bool,
    allowed_hosts: &Vec<String>,
) -> (r: bool)
    ensures
        r == spec_reaches_cookie_check(
            safe_method,
            *host,
            *origin,
            secure,
            allowed_hosts_wildcard,
            string_views(allowed_hosts@),
        ),
{
    if safe_method {
        return true;
    }
    match host {
        HeaderValue::Text(h) => match origin {
            HeaderValue::Missing => true,
            HeaderValue::NotText => false,
            HeaderValue::Text(o) => {
                let prefix = if secure {
                    String::from_str("https://")
                } else {
                    String::from_str("http://")
                };
                let own = prefix.concat(h.as_str());
                own == *o || allowed_hosts_wildcard || contains_string(allowed_hosts, &own)
            },
        },
        _ => false,
    }
}

/// Decides whether a request passes the CSRF protection.
pub fn check_csrf(
    safe_method: bool,
    host: &HeaderValue,
    origin: &HeaderValue,
    secure: bool,
    allowed_hosts_wildcard: bool,
    allowed_hosts: &Vec<String>,
    cookie: Option<&str>,
    csrf_header: &HeaderValue,
) -> (r: CsrfDecision)
    requires
        spec_reaches_cookie_check(
            safe_method,
            *host,
            *origin,
            secure,
            allowed_hosts_wildcard,
            string_views(allowed_hosts@),
        ) && cookie is Some ==> header_input_ok(*csrf_header),
    ensures
        r == spec_check_csrf(
            safe_method,
            *host,
            *origin,
            secure,
            allowed_hosts_wildcard,
            string_views(allowed_hosts@),
            match cookie {
                Some(c) => Some(c@),
                None => None,
            },
            *csrf_header,
        ),
{
    if !safe_method {
        let h = match host {
            HeaderValue::Missing => {
                return CsrfDecision { result: Err(CsrfRejection::MissingHost), cookie_missing: false };
            },
            HeaderValue::NotText => {
                return CsrfDecision { result: Err(CsrfRejection::InvalidHost), cookie_missing: false };
            },
            HeaderValue::Text(h) => h,
        };
        match origin {
            HeaderValue::NotText => {
                return CsrfDecision {
                    result: Err(CsrfRejection::InvalidOrigin),
                    cookie_missing: false,
                };
            },
            HeaderValue::Text(o) => {
                let prefix = if secure {
                    String::from_str("https://")
                } else {
                    String::from_str("http://")
                };
                let own = prefix.concat(h.as_str());
                if !(own == *o || allowed_hosts_wildcard || contains_string(allowed_hosts, &own)) {
                    return CsrfDecision {
                        result: Err(CsrfRejection::CsrfError),
                        cookie_missing: false,
                    };
                }
            },
            HeaderValue::Missing => {},
        }
    }
    let c = check_cookie(cookie, csrf_header);
    match c {
        Err(CsrfCookieError::ValidationError) => CsrfDecision {
            result: Err(CsrfRejection::CsrfError),
            cookie_missing: false,
        },
        Err(CsrfCookieError::MissingCookie) => CsrfDecision { result: Ok(()), cookie_missing: true },
        _ => CsrfDecision { result: Ok(()), cookie_missing: false },
    }
}

/// The caller sets a fresh CSRF cookie exactly when the request gets as far
/// as the cookie check and has no CSRF cookie: a request that carries one
/// keeps it, whatever its header holds.
pub proof fn lemma_fresh_cookie_only_without_one(
    safe_method: bool,
    host: HeaderValue,
    origin: HeaderValue,
    secure: bool,
    allowed_hosts_wildcard: bool,
    allowed_hosts: Seq<Seq<char>>,
    cookie: Option<Seq<char>>,
    csrf_header: HeaderValue,
)
    ensures
        spec_check_csrf(
            safe_method,
            host,
            origin,
            secure,
            allowed_hosts_wildcard,
            allowed_hosts,
            cookie,
            csrf_header,
        ).cookie_missing <==> (spec_reaches_cookie_check(
            safe_method,
            host,
            origin,
            secure,
            allowed_hosts_wildcard,
            allowed_hosts,
        ) && cookie is None),
        spec_check_csrf(
            safe_method,
            host,
            origin,
            secure,
            allowed_hosts_wildcard,
            allowed_hosts,
            cookie,
            csrf_header,
        ).cookie_missing ==> spec_check_csrf(
            safe_method,
            host,
            origin,
            secure,
            allowed_hosts_wildcard,
            allowed_hosts,
            cookie,
            csrf_header,
        ).result is Ok,
{
}

/// A request that gets as far as the cookie check is rejected exactly when
/// it carries a CSRF cookie and a text CSRF header whose token does not
/// validate against the cookie's secret; a missing cookie or header lets it
/// pass.
pub proof fn lemma_cookie_step_rejects_only_bad_tokens(
    safe_method: bool,
    host: HeaderValue,
    origin: HeaderValue,
    secure: bool,
    allowed_hosts_wildcard: bool,
    allowed_hosts: Seq<Seq<char>>,
    cookie: Option<Seq<char>>,
    csrf_header: HeaderValue,
)
    requires
        spec_reaches_cookie_check(safe_method, host, origin, secure, allowed_hosts_wildcard, allowed_hosts),
    ensures
        spec_check_csrf(
            safe_method,
            host,
            origin,
            secure,
            allowed_hosts_wildcard,
            allowed_hosts,
            cookie,
            csrf_header,
        ).result is Err <==> (cookie matches Some(secret) && csrf_header matches HeaderValue::Text(
            t,
        ) && !spec_validate_token(t@, secret)),
{
}

} // verus!
