use vstd::prelude::*;

verus! {

/// The hex digest `sha256::digest` computes for the given byte
/// content: a function of the bytes alone.
pub uninterp spec fn sha256_hex_of(bytes: Seq<u8>) -> Seq<char>;

/// Relies on sha256::digest: the hex-encoded SHA-256 digest of the
/// bytes, a function of the bytes alone.
#[verifier::external_body]
fn sha256_hex(bytes: &[u8]) -> (r: String)
    ensures
        r@ == sha256_hex_of(bytes@),
{
    sha256::digest(bytes)
}

/// What formatting the given epoch second as a compact UTC timestamp
/// (`%Y%m%dT%H%M%SZ`) returns: the text, or `None` outside chrono's
/// representable range.  A function of the second alone.
pub uninterp spec fn amz_date_of(ts: int) -> Option<Seq<char>>;

/// The last epoch second of year 9999, comfortably inside chrono's
/// representable range.
pub const MAX_AMZ_DATE_TS: u64 = 253402300799;

/// Relies on chrono's DateTime::from_timestamp and the UTC formatting
/// of the fixed pattern `%Y%m%dT%H%M%SZ`: deterministic in the epoch
/// second, `None` exactly on an out-of-range second, and every second
/// up to year 9999 is in range.
#[verifier::external_body]
fn format_amz_date(ts: u64) -> (r: Option<String>)
    ensures
        r is Some <==> amz_date_of(ts as int) is Some,
        r matches Some(s) ==> Some(s@) == amz_date_of(ts as int),
        ts <= MAX_AMZ_DATE_TS ==> r is Some,
{
    match chrono::DateTime::<chrono::Utc>::from_timestamp(ts as i64, 0) {
        Some(dt) => Some(dt.format("%Y%m%dT%H%M%SZ").to_string()),
        None => None,
    }
}

/// What signing a request with the given method, url, time, the four
/// headers named in `signed_headers_spec`, region, credentials,
/// service and body returns: the authorization header value, or
/// `None` when the url, a header value or the time is rejected.  The
/// crate sorts the headers before signing, so the outcome is a
/// function of these inputs alone.
pub uninterp spec fn aws_authorization_of(
    method: Seq<char>,
    url: Seq<char>,
    host: Seq<char>,
    ts: int,
    digest: Seq<char>,
    acl: Seq<char>,
    date: Seq<char>,
    region: Seq<char>,
    access: Seq<char>,
    secret: Seq<char>,
    service: Seq<char>,
    body: Seq<u8>,
) -> Option<Seq<char>>;

/// Relies on aws_sign_v4::AwsSign::new and sign: the four-step
/// signature over the canonical request.  The url and the header
/// values are checked before the call, so the crate's own parsing
/// cannot panic; `None` when any of them is rejected.
#[verifier::external_body]
fn aws_sign_put(
    method: &str,
    url: &str,
    host: &str,
    ts: u64,
    digest: &str,
    acl: &str,
    date: &str,
    region: &str,
    access: &str,
    secret: &str,
    service: &str,
    body: &[u8],
) -> (r: Option<String>)
    ensures
        r is Some <==> aws_authorization_of(
            method@,
            url@,
            host@,
            ts as int,
            digest@,
            acl@,
            date@,
            region@,
            access@,
            secret@,
            service@,
            body@,
        ) is Some,
        r matches Some(s) ==> Some(s@) == aws_authorization_of(
            method@,
            url@,
            host@,
            ts as int,
            digest@,
            acl@,
            date@,
            region@,
            access@,
            secret@,
            service@,
            body@,
        ),
{
    let dt = chrono::DateTime::from_timestamp(ts as i64, 0)?;
    url::Url::parse(url).ok()?;
    let mut h = http::HeaderMap::new();
    h.insert("x-amz-content-sha256", digest.parse().ok()?);
    h.insert("x-amz-acl", acl.parse().ok()?);
    h.insert("x-amz-date", date.parse().ok()?);
    h.insert("host", host.parse().ok()?);
    let sign = aws_sign_v4::AwsSign::new(method, url, &dt, &h, region, access, secret, service, body);
    Some(sign.sign())
}

/// Object-storage credentials, taken from process configuration.
pub struct Credentials {
    pub access_key: String,
    pub secret_key: String,
}

/// Why a request could not be signed.  The signer has no retry logic:
/// the caller owns the retry or fail decision.
#[derive(Clone, Copy, PartialEq, Eq, Structural, Debug)]
pub enum SignError {
    /// The upload timestamp was outside the representable range.
    Clock,
    /// The signing step rejected the request.
    Signature,
}

/// The views of a list of header name/value pairs.
pub open spec fn pairs_view(ps: Seq<(String, String)>) -> Seq<(Seq<char>, Seq<char>)> {
    ps.map_values(|p: (String, String)| (p.0@, p.1@))
}

/// The outcome of signing a single-object PUT as this library sends
/// it: public-read ACL, fixed region, the s3 service; `None` when the
/// date could not be formatted or the signing step rejected the
/// request.
pub open spec fn put_authorization_spec(
    url: Seq<char>,
    host: Seq<char>,
    ts: int,
    body: Seq<u8>,
    access: Seq<char>,
    secret: Seq<char>,
) -> Option<Seq<char>> {
    if amz_date_of(ts) is Some {
        aws_authorization_of(
            "PUT"@,
            url,
            host,
            ts,
            sha256_hex_of(body),
            "public-read"@,
            amz_date_of(ts)->0,
            "us-east-1"@,
            access,
            secret,
            "s3"@,
            body,
        )
    } else {
        Option::None
    }
}

/// Why signing a single-object PUT fails, or `None` when it succeeds:
/// `Clock` exactly when the timestamp cannot be formatted, `Signature`
/// exactly when the signing step rejects the request.
pub open spec fn put_sign_error(
    url: Seq<char>,
    host: Seq<char>,
    ts: int,
    body: Seq<u8>,
    access: Seq<char>,
    secret: Seq<char>,
) -> Option<SignError> {
    if amz_date_of(ts) is None {
        Option::Some(SignError::Clock)
    } else if put_authorization_spec(url, host, ts, body, access, secret) is None {
        Option::Some(SignError::Signature)
    } else {
        Option::None
    }
}

/// The full signed header set of a single-object PUT: content hash,
/// public-read ACL, date, host, authorization, and the
/// payload-appropriate content type, in this order.
pub open spec fn signed_headers_spec(
    digest: Seq<char>,
    date: Seq<char>,
    host: Seq<char>,
    auth: Seq<char>,
    ctype: Seq<char>,
) -> Seq<(Seq<char>, Seq<char>)> {
    seq![
        ("x-amz-content-sha256"@, digest),
        ("x-amz-acl"@, "public-read"@),
        ("x-amz-date"@, date),
        ("host"@, host),
        ("authorization"@, auth),
        ("content-type"@, ctype),
    ]
}

/// Produces the full signed header set for a PUT of `body` to `url`
/// on `host` at time `ts`.  Each object is signed independently
/// because its content digest differs.  It succeeds exactly when the
/// signing outcome does; a failure is handed back untouched.
pub fn signed_put_headers(
    url: &String,
    host: &str,
    ts: u64,
    content_type: &str,
    body: &Vec<u8>,
    creds: &Credentials,
) -> (r: Result<Vec<(String, String)>, SignError>)
    ensures
        ts <= MAX_AMZ_DATE_TS ==> amz_date_of(ts as int) is Some,
        match r {
            Result::Ok(h) => put_sign_error(
                url@,
                host@,
                ts as int,
                body@,
                creds.access_key@,
                creds.secret_key@,
            ) is None && pairs_view(h@) =~= signed_headers_spec(
                sha256_hex_of(body@),
                amz_date_of(ts as int)->0,
                host@,
                put_authorization_spec(
                    url@,
                    host@,
                    ts as int,
                    body@,
                    creds.access_key@,
                    creds.secret_key@,
                )->0,
                content_type@,
            ),
            Result::Err(e) => Option::Some(e) == put_sign_error(
                url@,
                host@,
                ts as int,
                body@,
                creds.access_key@,
                creds.secret_key@,
            ),
        },
{
    let digest = sha256_hex(body.as_slice());
    let date = match format_amz_date(ts) {
        Some(d) => d,
        None => {
            return Result::Err(SignError::Clock);
        },
    };
    let auth = match aws_sign_put(
        "PUT",
        url.as_str(),
        host,
        ts,
        digest.as_str(),
        "public-read",
        date.as_str(),
        "us-east-1",
        creds.access_key.as_str(),
        creds.secret_key.as_str(),
        "s3",
        body.as_slice(),
    ) {
        Some(a) => a,
        None => {
            return Result::Err(SignError::Signature);
        },
    };
    let mut h: Vec<(String, String)> = Vec::new();
    h.push((String::from_str("x-amz-content-sha256"), digest));
    h.push((String::from_str("x-amz-acl"), String::from_str("public-read")));
    h.push((String::from_str("x-amz-date"), date));
    h.push((String::from_str("host"), String::from_str(host)));
    h.push((String::from_str("authorization"), auth));
    h.push((String::from_str("content-type"), String::from_str(content_type)));
    proof {
        assert(pairs_view(h@) =~= signed_headers_spec(
            sha256_hex_of(body@),
            amz_date_of(ts as int)->0,
            host@,
            put_authorization_spec(
                url@,
                host@,
                ts as int,
                body@,
                creds.access_key@,
                creds.secret_key@,
            )->0,
            content_type@,
        ));
    }
    Result::Ok(h)
}

} // verus!
