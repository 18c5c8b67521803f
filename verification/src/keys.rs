use vstd::prelude::*;
use crate::decimal::dec_str;
use crate::decimal::u64_to_string;

verus! {

/// What `urlencoding::encode` returns for the given text: every UTF-8
/// byte outside ASCII alphanumerics and `-`, `_`, `.`, `~` written as
/// an uppercase percent escape.  A function of the text alone.
pub uninterp spec fn url_encoded(s: Seq<char>) -> Seq<char>;

/// Relies on urlencoding::encode: percent-encodes every byte except
/// ASCII alphanumerics and `-`, `_`, `.`, `~`; deterministic in its
/// input.
#[verifier::external_body]
fn url_encode(s: &str) -> (r: String)
    ensures
        r@ == url_encoded(s@),
{
    urlencoding::encode(s).into_owned()
}

/// The host all mirrored objects are stored under.
pub open spec fn storage_host_spec() -> Seq<char> {
    "fia.ort.dev"@
}

/// Storage key of a mirrored original document:
/// `mirror/{year}/{eventTitle}/{docTitle}.pdf`, with the title
/// components URL-encoded.
pub open spec fn mirror_key_spec(year: int, event_title: Seq<char>, doc_title: Seq<char>) -> Seq<
    char,
> {
    "mirror/"@ + dec_str(year) + "/"@ + url_encoded(event_title) + "/"@ + url_encoded(doc_title)
        + ".pdf"@
}

/// Storage key of one rendered page image:
/// `img/{year}/{eventTitle}/{docId}-{page}.jpg`, with the title
/// component URL-encoded and the numeric components written plain.
pub open spec fn image_key_spec(year: int, event_title: Seq<char>, doc_id: int, page: int) -> Seq<
    char,
> {
    "img/"@ + dec_str(year) + "/"@ + url_encoded(event_title) + "/"@ + dec_str(doc_id) + "-"@
        + dec_str(page) + ".jpg"@
}

/// The public address of an object with the given storage key.
pub open spec fn object_url_spec(key: Seq<char>) -> Seq<char> {
    "https://"@ + storage_host_spec() + "/"@ + key
}

/// Derives the storage key for the mirrored original of a document.
pub fn mirror_key(year: u16, event_title: &str, doc_title: &str) -> (r: String)
    ensures
        r@ == mirror_key_spec(year as int, event_title@, doc_title@),
{
    let mut s = String::from_str("mirror/");
    let y = u64_to_string(year as u64);
    s.append(y.as_str());
    s.append("/");
    let e = url_encode(event_title);
    s.append(e.as_str());
    s.append("/");
    let t = url_encode(doc_title);
    s.append(t.as_str());
    s.append(".pdf");
    proof {
        assert(s@ =~= mirror_key_spec(year as int, event_title@, doc_title@));
    }
    s
}

/// Derives the storage key for one rendered page image of a document.
pub fn image_key(year: u16, event_title: &str, doc_id: u64, page: u32) -> (r: String)
    ensures
        r@ == image_key_spec(year as int, event_title@, doc_id as int, page as int),
{
    let mut s = String::from_str("img/");
    let y = u64_to_string(year as u64);
    s.append(y.as_str());
    s.append("/");
    let e = url_encode(event_title);
    s.append(e.as_str());
    s.append("/");
    let d = u64_to_string(doc_id);
    s.append(d.as_str());
    s.append("-");
    let p = u64_to_string(page as u64);
    s.append(p.as_str());
    s.append(".jpg");
    proof {
        assert(s@ =~= image_key_spec(year as int, event_title@, doc_id as int, page as int));
    }
    s
}

/// The public address of an object with the given storage key.
pub fn object_url(key: &str) -> (r: String)
    ensures
        r@ == object_url_spec(key@),
{
    let mut s = String::from_str("https://");
    s.append("fia.ort.dev");
    s.append("/");
    s.append(key);
    proof {
        assert(s@ =~= object_url_spec(key@));
    }
    s
}

} // verus!
