//! Request signing: every REST call carries an MD5 of its body, a timestamp,
//! a nonce and an HMAC-SHA256 over the canonical form of those headers.

use crate::error::BilibiliError;
use crate::error::ErrorKind;
use vstd::prelude::*;
use vstd::string::StringExecFns;
use vstd::utf8::encode_utf8;

verus! {

/// The caller's credentials and the platform's address.
#[derive(Debug, Clone)]
pub struct BilibiliConfig {
    pub id_code: String,
    pub app_id: u64,
    pub access_key: String,
    pub access_secret: String,
    pub host: String,
}

/// One HTTP header.
#[derive(Debug, Clone)]
pub struct Header {
    pub name: String,
    pub value: String,
}

/// The headers of a list as pairs of name and value.
pub open spec fn header_pairs(headers: Seq<Header>) -> Seq<(Seq<char>, Seq<char>)> {
    headers.map_values(|h: Header| (h.name@, h.value@))
}

/// The MD5 digest of `data`.
pub uninterp spec fn md5_of(data: Seq<u8>) -> Seq<u8>;

/// `md5::compute`: the 16 bytes of the digest. Nothing is proved of the
/// hash itself; its result is named `md5_of`.
#[verifier::external_body]
fn md5_digest(data: &[u8]) -> (d: Vec<u8>)
    ensures
        d@ == md5_of(data@),
        d@.len() == 16,
{
    md5::compute(data).0.to_vec()
}

/// The HMAC-SHA256 tag of `msg` under `key`.
pub uninterp spec fn hmac_sha256_of(key: Seq<u8>, msg: Seq<u8>) -> Seq<u8>;

/// `Hmac::<Sha256>::new_from_slice`, `update` and `finalize` of the `hmac`
/// crate. A key of any length is taken, so there is always a tag; it is 32
/// bytes long. Of its value nothing is proved: it is only named
/// `hmac_sha256_of`.
#[verifier::external_body]
fn hmac_sha256(key: &[u8], msg: &[u8]) -> (r: Option<Vec<u8>>)
    ensures
        r is Some,
        r->0@ == hmac_sha256_of(key@, msg@),
        r->0@.len() == 32,
{
    match <hmac::Hmac<sha2::Sha256> as hmac::Mac>::new_from_slice(key) {
        Ok(mut mac) => {
            hmac::Mac::update(&mut mac, msg);
            Some(hmac::Mac::finalize(mac).into_bytes().to_vec())
        },
        Err(_) => None,
    }
}

/// The lower-case hexadecimal digit for a value below 16.
pub open spec fn hex_digit(v: int) -> char {
    if v == 0 {
        '0'
    } else if v == 1 {
        '1'
    } else if v == 2 {
        '2'
    } else if v == 3 {
        '3'
    } else if v == 4 {
        '4'
    } else if v == 5 {
        '5'
    } else if v == 6 {
        '6'
    } else if v == 7 {
        '7'
    } else if v == 8 {
        '8'
    } else if v == 9 {
        '9'
    } else if v == 10 {
        'a'
    } else if v == 11 {
        'b'
    } else if v == 12 {
        'c'
    } else if v == 13 {
        'd'
    } else if v == 14 {
        'e'
    } else {
        'f'
    }
}

/// Two lower-case hexadecimal digits per byte, high digit first.
pub open spec fn hex_lower(bytes: Seq<u8>) -> Seq<char> {
    Seq::new(
        2 * bytes.len(),
        |i: int|
            hex_digit(
                if i % 2 == 0 {
                    bytes[i / 2] as int / 16
                } else {
                    bytes[i / 2] as int % 16
                },
            ),
    )
}

/// `std::time::SystemTime`, carried through as it is.
#[verifier::external_type_specification]
#[verifier::external_body]
pub struct ExSystemTime(std::time::SystemTime);

/// `std::time::SystemTimeError`, carried through as it is.
#[verifier::external_type_specification]
#[verifier::external_body]
pub struct ExSystemTimeError(std::time::SystemTimeError);

/// `SystemTime::now`: the moment of the call. Nothing is known of it.
pub assume_specification[ std::time::SystemTime::now ]() -> std::time::SystemTime;

/// `SystemTime::duration_since`: the time elapsed since `earlier`, or an
/// error where `earlier` is the later of the two. Nothing is known of it.
pub assume_specification[ std::time::SystemTime::duration_since ](
    time: &std::time::SystemTime,
    earlier: std::time::SystemTime,
) -> Result<std::time::Duration, std::time::SystemTimeError>;

/// `Duration::as_secs`: the whole seconds of a duration. Nothing is known
/// of the number.
pub assume_specification[ std::time::Duration::as_secs ](d: &std::time::Duration) -> u64;

/// `std::time::UNIX_EPOCH`: the start of 1970 in UTC.
#[verifier::external_body]
fn unix_epoch() -> std::time::SystemTime {
    std::time::UNIX_EPOCH
}

/// Seconds since the Unix epoch, or `None` where the clock stands before
/// the epoch.
fn unix_seconds() -> Option<u64> {
    match std::time::SystemTime::now().duration_since(unix_epoch()) {
        Ok(elapsed) => Some(elapsed.as_secs()),
        Err(_) => None,
    }
}

/// `rand::random`: any 64-bit value.
#[verifier::external_body]
fn random_nonce() -> u64 {
    rand::random::<u64>()
}

/// The character for a decimal digit.
pub open spec fn digit_char(d: nat) -> char {
    hex_digit(d as int)
}

/// The decimal numeral of `n`, without leading zeros.
pub open spec fn decimal(n: nat) -> Seq<char>
    decreases n,
{
    if n < 10 {
        seq![digit_char(n)]
    } else {
        decimal(n / 10).push(digit_char(n % 10))
    }
}

fn digit_str(d: u64) -> (s: &'static str)
    requires
        d < 16,
    ensures
        s@ == seq![hex_digit(d as int)],
{
    proof {
        reveal_strlit("0");
        reveal_strlit("1");
        reveal_strlit("2");
        reveal_strlit("3");
        reveal_strlit("4");
        reveal_strlit("5");
        reveal_strlit("6");
        reveal_strlit("7");
        reveal_strlit("8");
        reveal_strlit("9");
        reveal_strlit("a");
        reveal_strlit("b");
        reveal_strlit("c");
        reveal_strlit("d");
        reveal_strlit("e");
        reveal_strlit("f");
    }
    let s = if d == 0 {
        "0"
    } else if d == 1 {
        "1"
    } else if d == 2 {
        "2"
    } else if d == 3 {
        "3"
    } else if d == 4 {
        "4"
    } else if d == 5 {
        "5"
    } else if d == 6 {
        "6"
    } else if d == 7 {
        "7"
    } else if d == 8 {
        "8"
    } else if d == 9 {
        "9"
    } else if d == 10 {
        "a"
    } else if d == 11 {
        "b"
    } else if d == 12 {
        "c"
    } else if d == 13 {
        "d"
    } else if d == 14 {
        "e"
    } else {
        "f"
    };
    assert(s@ =~= seq![hex_digit(d as int)]);
    s
}

/// Writes each byte as two lower-case hexadecimal digits.
pub fn hex_encode(bytes: &[u8]) -> (s: String)
    ensures
        s@ == hex_lower(bytes@),
{
    let mut s = String::new();
    let mut i: usize = 0;
    while i < bytes.len()
        invariant
            i <= bytes@.len(),
            s@ == hex_lower(bytes@.subrange(0, i as int)),
        decreases bytes@.len() - i,
    {
        let b: u8 = bytes[i];
        let ghost before = s@;
        s.append(digit_str((b / 16) as u64));
        s.append(digit_str((b % 16) as u64));
        assert(s@ =~= hex_lower(bytes@.subrange(0, i as int + 1))) by {
            let shorter = bytes@.subrange(0, i as int);
            let longer = bytes@.subrange(0, i as int + 1);
            assert(s@ == before + seq![hex_digit(b as int / 16)] + seq![hex_digit(b as int % 16)]);
            assert forall|j: int| 0 <= j < 2 * i implies hex_lower(longer)[j] == before[j] by {
                assert(longer[j / 2] == shorter[j / 2]);
            }
            assert(longer[i as int] == b);
        }
        i += 1;
    }
    assert(bytes@.subrange(0, i as int) =~= bytes@);
    s
}

/// Writes `n` in decimal.
pub fn decimal_string(n: u64) -> (s: String)
    ensures
        s@ == decimal(n as nat),
    decreases n,
{
    if n < 10 {
        digit_str(n).to_owned()
    } else {
        let mut s = decimal_string(n / 10);
        s.append(digit_str(n % 10));
        assert(s@ =~= decimal((n / 10) as nat).push(digit_char((n % 10) as nat)));
        s
    }
}

/// Whether HTTP allows the byte in a header value: anything from the space
/// up except DEL, and the tab.
pub open spec fn header_byte_ok(b: u8) -> bool {
    (b >= 32 && b != 127) || b == 9
}

/// Whether every byte may stand in a header value.
pub open spec fn header_value_ok(bytes: Seq<u8>) -> bool {
    forall|i: int| 0 <= i < bytes.len() ==> header_byte_ok(#[trigger] bytes[i])
}

/// Tells whether `value` may be sent as a header value.
pub fn is_header_value(value: &str) -> (ok: bool)
    ensures
        ok == header_value_ok(encode_utf8(value@)),
{
    let bytes = value.as_bytes();
    let mut i: usize = 0;
    while i < bytes.len()
        invariant
            i <= bytes@.len(),
            bytes@ == encode_utf8(value@),
            forall|j: int| 0 <= j < i ==> header_byte_ok(#[trigger] bytes@[j]),
        decreases bytes@.len() - i,
    {
        let b: u8 = bytes[i];
        if !((b >= 32 && b != 127) || b == 9) {
            return false;
        }
        i += 1;
    }
    true
}

/// The six headers that are signed, in ascending order of their names.
pub open spec fn signed_lines(
    access_key: Seq<char>,
    content_md5: Seq<char>,
    nonce: Seq<char>,
    timestamp: Seq<char>,
) -> Seq<(Seq<char>, Seq<char>)> {
    seq![
        ("x-bili-accesskeyid"@, access_key),
        ("x-bili-content-md5"@, content_md5),
        ("x-bili-signature-method"@, "HMAC-SHA256"@),
        ("x-bili-signature-nonce"@, nonce),
        ("x-bili-signature-version"@, "1.0"@),
        ("x-bili-timestamp"@, timestamp),
    ]
}

/// One line of the signing input: `name:value`.
pub open spec fn line(header: (Seq<char>, Seq<char>)) -> Seq<char> {
    header.0 + ":"@ + header.1
}

/// The lines of the given headers, with a newline between each two and
/// none at the end.
pub open spec fn joined(headers: Seq<(Seq<char>, Seq<char>)>) -> Seq<char>
    decreases headers.len(),
{
    if headers.len() == 0 {
        Seq::empty()
    } else if headers.len() == 1 {
        line(headers[0])
    } else {
        joined(headers.drop_last()) + "\n"@ + line(headers.last())
    }
}

/// The text that is signed: the six signed headers, sorted by name, one
/// `name:value` per line.
pub open spec fn signing_input(
    access_key: Seq<char>,
    content_md5: Seq<char>,
    nonce: Seq<char>,
    timestamp: Seq<char>,
) -> Seq<char> {
    joined(signed_lines(access_key, content_md5, nonce, timestamp))
}

/// The signing input written out piece by piece.
pub proof fn lemma_signing_input_flat(
    access_key: Seq<char>,
    content_md5: Seq<char>,
    nonce: Seq<char>,
    timestamp: Seq<char>,
)
    ensures
        signing_input(access_key, content_md5, nonce, timestamp) == "x-bili-accesskeyid"@ + ":"@
            + access_key + "\n"@ + "x-bili-content-md5"@ + ":"@ + content_md5 + "\n"@
            + "x-bili-signature-method"@ + ":"@ + "HMAC-SHA256"@ + "\n"@
            + "x-bili-signature-nonce"@ + ":"@ + nonce + "\n"@ + "x-bili-signature-version"@
            + ":"@ + "1.0"@ + "\n"@ + "x-bili-timestamp"@ + ":"@ + timestamp,
{
    let l = signed_lines(access_key, content_md5, nonce, timestamp);
    let l5 = l.drop_last();
    let l4 = l5.drop_last();
    let l3 = l4.drop_last();
    let l2 = l3.drop_last();
    let l1 = l2.drop_last();
    assert(joined(l1) == line(l[0]));
    assert(joined(l2) == joined(l1) + "\n"@ + line(l[1]));
    assert(joined(l3) == joined(l2) + "\n"@ + line(l[2]));
    assert(joined(l4) == joined(l3) + "\n"@ + line(l[3]));
    assert(joined(l5) == joined(l4) + "\n"@ + line(l[4]));
    assert(joined(l) == joined(l5) + "\n"@ + line(l[5]));
    assert(joined(l) =~= "x-bili-accesskeyid"@ + ":"@ + access_key + "\n"@
        + "x-bili-content-md5"@ + ":"@ + content_md5 + "\n"@ + "x-bili-signature-method"@ + ":"@
        + "HMAC-SHA256"@ + "\n"@ + "x-bili-signature-nonce"@ + ":"@ + nonce + "\n"@
        + "x-bili-signature-version"@ + ":"@ + "1.0"@ + "\n"@ + "x-bili-timestamp"@ + ":"@
        + timestamp);
}

/// The hexadecimal MD5 of a request body.
pub open spec fn content_md5(body: Seq<char>) -> Seq<char> {
    hex_lower(md5_of(encode_utf8(body)))
}

/// The signature of a request: the hexadecimal HMAC-SHA256 of the signing
/// input under the secret.
pub open spec fn signature(
    access_key: Seq<char>,
    secret: Seq<char>,
    body: Seq<char>,
    timestamp: u64,
    nonce: u64,
) -> Seq<char> {
    hex_lower(
        hmac_sha256_of(
            encode_utf8(secret),
            encode_utf8(
                signing_input(
                    access_key,
                    content_md5(body),
                    decimal(nonce as nat),
                    decimal(timestamp as nat),
                ),
            ),
        ),
    )
}

/// The nine headers of a signed request, in the order they are set.
pub open spec fn signed_headers(
    access_key: Seq<char>,
    content_md5: Seq<char>,
    nonce: Seq<char>,
    timestamp: Seq<char>,
    signature: Seq<char>,
) -> Seq<(Seq<char>, Seq<char>)> {
    seq![
        ("x-bili-timestamp"@, timestamp),
        ("x-bili-signature-method"@, "HMAC-SHA256"@),
        ("x-bili-signature-nonce"@, nonce),
        ("x-bili-accesskeyid"@, access_key),
        ("x-bili-signature-version"@, "1.0"@),
        ("x-bili-content-md5"@, content_md5),
        ("Authorization"@, signature),
        ("Content-Type"@, "application/json"@),
        ("Accept"@, "application/json"@),
    ]
}

/// Whether `r` is the outcome of signing `body` at `timestamp` with
/// `nonce`: the nine headers where the access key can stand in a header,
/// and a signing error where it cannot.
pub open spec fn signed_as(
    r: Result<Vec<Header>, BilibiliError>,
    access_key: Seq<char>,
    secret: Seq<char>,
    body: Seq<char>,
    timestamp: u64,
    nonce: u64,
) -> bool {
    if header_value_ok(encode_utf8(access_key)) {
        &&& r matches Ok(headers)
        &&& header_pairs(headers@) == signed_headers(
            access_key,
            content_md5(body),
            decimal(nonce as nat),
            decimal(timestamp as nat),
            signature(access_key, secret, body, timestamp, nonce),
        )
    } else {
        r matches Err(e) && e.kind == ErrorKind::Signing
    }
}

fn header(name: &str, value: String) -> (h: Header)
    ensures
        h.name@ == name@,
        h.value@ == value@,
{
    Header { name: name.to_owned(), value }
}

fn build_signing_input(access_key: &str, content_md5: &str, nonce: &str, timestamp: &str) -> (s:
    String)
    ensures
        s@ == signing_input(access_key@, content_md5@, nonce@, timestamp@),
{
    let mut s = "x-bili-accesskeyid".to_owned();
    s.append(":");
    s.append(access_key);
    s.append("\n");
    s.append("x-bili-content-md5");
    s.append(":");
    s.append(content_md5);
    s.append("\n");
    s.append("x-bili-signature-method");
    s.append(":");
    s.append("HMAC-SHA256");
    s.append("\n");
    s.append("x-bili-signature-nonce");
    s.append(":");
    s.append(nonce);
    s.append("\n");
    s.append("x-bili-signature-version");
    s.append(":");
    s.append("1.0");
    s.append("\n");
    s.append("x-bili-timestamp");
    s.append(":");
    s.append(timestamp);
    proof {
        lemma_signing_input_flat(access_key@, content_md5@, nonce@, timestamp@);
    }
    s
}

/// Signs the request body `params` with the given timestamp and nonce.
pub fn sign_with(config: &BilibiliConfig, params: &str, timestamp: u64, nonce: u64) -> (r: Result<
    Vec<Header>,
    BilibiliError,
>)
    ensures
        signed_as(r, config.access_key@, config.access_secret@, params@, timestamp, nonce),
{
    let digest = md5_digest(params.as_bytes());
    let md5_hex = hex_encode(digest.as_slice());
    let ts = decimal_string(timestamp);
    let nc = decimal_string(nonce);
    let input = build_signing_input(
        config.access_key.as_str(),
        md5_hex.as_str(),
        nc.as_str(),
        ts.as_str(),
    );
    let key = config.access_secret.as_str().as_bytes();
    let tag = hmac_sha256(key, input.as_str().as_bytes()).unwrap();
    let sig = hex_encode(tag.as_slice());
    if !is_header_value(config.access_key.as_str()) {
        return Err(BilibiliError::with_text(ErrorKind::Signing, "failed to parse header value"));
    }
    let mut headers: Vec<Header> = Vec::new();
    headers.push(header("x-bili-timestamp", ts));
    headers.push(header("x-bili-signature-method", "HMAC-SHA256".to_owned()));
    headers.push(header("x-bili-signature-nonce", nc));
    headers.push(header("x-bili-accesskeyid", config.access_key.clone()));
    headers.push(header("x-bili-signature-version", "1.0".to_owned()));
    headers.push(header("x-bili-content-md5", md5_hex));
    headers.push(header("Authorization", sig));
    headers.push(header("Content-Type", "application/json".to_owned()));
    headers.push(header("Accept", "application/json".to_owned()));
    assert(header_pairs(headers@) =~= signed_headers(
        config.access_key@,
        content_md5(params@),
        decimal(nonce as nat),
        decimal(timestamp as nat),
        hex_lower(tag@),
    ));
    Ok(headers)
}

/// Whether `r` is what signing `body` gives at some moment with some nonce,
/// or the error for a clock that stands before the epoch.
pub open spec fn freshly_signed(
    r: Result<Vec<Header>, BilibiliError>,
    access_key: Seq<char>,
    secret: Seq<char>,
    body: Seq<char>,
) -> bool {
    ||| r matches Err(e) && e.kind == ErrorKind::Clock
    ||| exists|timestamp: u64, nonce: u64| #[trigger]
        signed_as(r, access_key, secret, body, timestamp, nonce)
}

/// Signs the request body `params` with the current time and a fresh random
/// nonce.
pub fn sign_static(config: &BilibiliConfig, params: &str) -> (r: Result<Vec<Header>, BilibiliError>)
    ensures
        freshly_signed(r, config.access_key@, config.access_secret@, params@),
{
    let timestamp = match unix_seconds() {
        Some(t) => t,
        None => {
            return Err(
                BilibiliError::with_text(ErrorKind::Clock, "system time is before the Unix epoch"),
            );
        },
    };
    let nonce = random_nonce();
    sign_with(config, params, timestamp, nonce)
}

/// Two signings of the same body with the same credentials, timestamp and
/// nonce agree: both fail, or both give the same headers, the signature
/// among them.
pub proof fn lemma_signing_deterministic(
    r1: Result<Vec<Header>, BilibiliError>,
    r2: Result<Vec<Header>, BilibiliError>,
    access_key: Seq<char>,
    secret: Seq<char>,
    body: Seq<char>,
    timestamp: u64,
    nonce: u64,
)
    requires
        signed_as(r1, access_key, secret, body, timestamp, nonce),
        signed_as(r2, access_key, secret, body, timestamp, nonce),
    ensures
        r1 is Ok <==> r2 is Ok,
        r1 is Ok ==> header_pairs(r1->Ok_0@) == header_pairs(r2->Ok_0@),
        r1 is Err ==> r1->Err_0.kind == r2->Err_0.kind,
{
}

proof fn lemma_middle_cancels(a: Seq<char>, x: Seq<char>, y: Seq<char>, b: Seq<char>)
    requires
        a + x + b == a + y + b,
    ensures
        x == y,
{
    assert((a + x + b).len() == a.len() + x.len() + b.len());
    assert((a + y + b).len() == a.len() + y.len() + b.len());
    assert(x.len() == y.len());
    assert forall|i: int| 0 <= i < x.len() implies x[i] == y[i] by {
        assert((a + x + b)[a.len() + i] == x[i]);
        assert((a + y + b)[a.len() + i] == y[i]);
    }
    assert(x =~= y);
}

/// The number that a decimal numeral stands for.
pub open spec fn decimal_value(digits: Seq<char>) -> nat
    decreases digits.len(),
{
    if digits.len() == 0 {
        0
    } else {
        decimal_value(digits.drop_last()) * 10 + (digits.last() as nat - '0' as nat) as nat
    }
}

/// Reading a decimal numeral back gives the number it was written from.
pub proof fn lemma_decimal_value(n: nat)
    ensures
        decimal_value(decimal(n)) == n,
    decreases n,
{
    if n < 10 {
        assert(decimal(n).drop_last() =~= Seq::<char>::empty());
        assert(decimal_value(Seq::<char>::empty()) == 0);
        assert(decimal(n).last() == digit_char(n));
    } else {
        lemma_decimal_value(n / 10);
        assert(decimal(n).drop_last() =~= decimal(n / 10));
        assert(decimal(n).last() == digit_char(n % 10));
    }
}

/// Different numbers have different decimal numerals.
pub proof fn lemma_decimal_injective(a: nat, b: nat)
    requires
        decimal(a) == decimal(b),
    ensures
        a == b,
{
    lemma_decimal_value(a);
    lemma_decimal_value(b);
}

spec fn framed(
    l0: Seq<char>,
    key: Seq<char>,
    l1: Seq<char>,
    md5: Seq<char>,
    l2: Seq<char>,
    nonce: Seq<char>,
    l3: Seq<char>,
    time: Seq<char>,
) -> Seq<char> {
    l0 + key + l1 + md5 + l2 + nonce + l3 + time
}

spec fn frame0() -> Seq<char> {
    "x-bili-accesskeyid"@ + ":"@
}

spec fn frame1() -> Seq<char> {
    "\n"@ + "x-bili-content-md5"@ + ":"@
}

spec fn frame2() -> Seq<char> {
    "\n"@ + "x-bili-signature-method"@ + ":"@ + "HMAC-SHA256"@ + "\n"@
        + "x-bili-signature-nonce"@ + ":"@
}

spec fn frame3() -> Seq<char> {
    "\n"@ + "x-bili-signature-version"@ + ":"@ + "1.0"@ + "\n"@ + "x-bili-timestamp"@ + ":"@
}

proof fn lemma_signing_input_framed(
    key: Seq<char>,
    md5: Seq<char>,
    nonce: Seq<char>,
    time: Seq<char>,
)
    ensures
        signing_input(key, md5, nonce, time) == framed(
            frame0(),
            key,
            frame1(),
            md5,
            frame2(),
            nonce,
            frame3(),
            time,
        ),
{
    lemma_signing_input_flat(key, md5, nonce, time);
    assert(signing_input(key, md5, nonce, time) =~= framed(
        frame0(),
        key,
        frame1(),
        md5,
        frame2(),
        nonce,
        frame3(),
        time,
    ));
}

/// Changing one of the four signed values, whichever it is, changes the
/// text that is signed: two signing inputs that agree in three of the
/// values and are equal agree in the fourth too.
pub proof fn lemma_signing_input_tells_values_apart(
    key1: Seq<char>,
    md5_1: Seq<char>,
    nonce1: Seq<char>,
    time1: Seq<char>,
    key2: Seq<char>,
    md5_2: Seq<char>,
    nonce2: Seq<char>,
    time2: Seq<char>,
)
    requires
        signing_input(key1, md5_1, nonce1, time1) == signing_input(key2, md5_2, nonce2, time2),
        ({
            ||| md5_1 == md5_2 && nonce1 == nonce2 && time1 == time2
            ||| key1 == key2 && nonce1 == nonce2 && time1 == time2
            ||| key1 == key2 && md5_1 == md5_2 && time1 == time2
            ||| key1 == key2 && md5_1 == md5_2 && nonce1 == nonce2
        }),
    ensures
        key1 == key2,
        md5_1 == md5_2,
        nonce1 == nonce2,
        time1 == time2,
{
    lemma_signing_input_framed(key1, md5_1, nonce1, time1);
    lemma_signing_input_framed(key2, md5_2, nonce2, time2);
    let s1 = framed(frame0(), key1, frame1(), md5_1, frame2(), nonce1, frame3(), time1);
    let s2 = framed(frame0(), key2, frame1(), md5_2, frame2(), nonce2, frame3(), time2);
    // In each case the text is cut around the one value that may differ.
    if md5_1 == md5_2 && nonce1 == nonce2 && time1 == time2 {
        let a = frame0();
        let b = frame1() + md5_1 + frame2() + nonce1 + frame3() + time1;
        assert(s1 == a + key1 + b && s2 == a + key2 + b) by {
            assert(s1 =~= a + key1 + b);
            assert(s2 =~= a + key2 + b);
        }
        lemma_middle_cancels(a, key1, key2, b);
    } else if key1 == key2 && nonce1 == nonce2 && time1 == time2 {
        let a = frame0() + key1 + frame1();
        let b = frame2() + nonce1 + frame3() + time1;
        assert(s1 == a + md5_1 + b && s2 == a + md5_2 + b) by {
            assert(s1 =~= a + md5_1 + b);
            assert(s2 =~= a + md5_2 + b);
        }
        lemma_middle_cancels(a, md5_1, md5_2, b);
    } else if key1 == key2 && md5_1 == md5_2 && time1 == time2 {
        let a = frame0() + key1 + frame1() + md5_1 + frame2();
        let b = frame3() + time1;
        assert(s1 == a + nonce1 + b && s2 == a + nonce2 + b) by {
            assert(s1 =~= a + nonce1 + b);
            assert(s2 =~= a + nonce2 + b);
        }
        lemma_middle_cancels(a, nonce1, nonce2, b);
    } else {
        let a = frame0() + key1 + frame1() + md5_1 + frame2() + nonce1 + frame3();
        let b = Seq::<char>::empty();
        assert(s1 == a + time1 + b && s2 == a + time2 + b) by {
            assert(s1 =~= a + time1 + b);
            assert(s2 =~= a + time2 + b);
        }
        lemma_middle_cancels(a, time1, time2, b);
    }
}

/// Whether `a` and `b` agree before position `k` and `a` is the smaller
/// there: it ends, or holds the smaller character.
pub open spec fn less_at(a: Seq<char>, b: Seq<char>, k: int) -> bool {
    &&& 0 <= k <= a.len()
    &&& k < b.len()
    &&& a.subrange(0, k) == b.subrange(0, k)
    &&& k < a.len() ==> (a[k] as u32) < (b[k] as u32)
}

/// Whether `a` comes before `b` in lexicographic order.
pub open spec fn lex_less(a: Seq<char>, b: Seq<char>) -> bool {
    exists|k: int| less_at(a, b, k)
}

/// The signed headers stand in strictly ascending lexicographic order of
/// their names.
pub proof fn lemma_signed_lines_sorted(
    access_key: Seq<char>,
    content_md5: Seq<char>,
    nonce: Seq<char>,
    timestamp: Seq<char>,
)
    ensures
        forall|i: int|
            0 <= i < 5 ==> lex_less(
                #[trigger] signed_lines(access_key, content_md5, nonce, timestamp)[i].0,
                signed_lines(access_key, content_md5, nonce, timestamp)[i + 1].0,
            ),
{
    reveal_strlit("x-bili-accesskeyid");
    reveal_strlit("x-bili-content-md5");
    reveal_strlit("x-bili-signature-method");
    reveal_strlit("x-bili-signature-nonce");
    reveal_strlit("x-bili-signature-version");
    reveal_strlit("x-bili-timestamp");
    let l = signed_lines(access_key, content_md5, nonce, timestamp);
    assert forall|i: int| 0 <= i < 5 implies lex_less(#[trigger] l[i].0, l[i + 1].0) by {
        // Where the two names first differ.
        let k: int = if i == 2 || i == 3 {
            17
        } else {
            7
        };
        assert(l[i].0.subrange(0, k) =~= l[i + 1].0.subrange(0, k));
        assert(less_at(l[i].0, l[i + 1].0, k));
    }
}

/// The headers that are signed are the six `x-bili-` headers that are
/// sent, each with the value it is sent with.
pub proof fn lemma_signed_lines_are_sent(
    access_key: Seq<char>,
    content_md5: Seq<char>,
    nonce: Seq<char>,
    timestamp: Seq<char>,
    signature: Seq<char>,
)
    ensures
        ({
            let signed = signed_lines(access_key, content_md5, nonce, timestamp);
            let sent = signed_headers(access_key, content_md5, nonce, timestamp, signature);
            &&& signed.len() == 6
            &&& sent.len() == 9
            &&& signed[0] == sent[3]
            &&& signed[1] == sent[5]
            &&& signed[2] == sent[1]
            &&& signed[3] == sent[2]
            &&& signed[4] == sent[4]
            &&& signed[5] == sent[0]
        }),
{
}

} // verus!
