use vstd::prelude::*;

verus! {

/// The storage key of a request: the method, a colon, and the URL.
pub open spec fn key_of(method: Seq<char>, url: Seq<char>) -> Seq<char> {
    method + seq![':'] + url
}

/// The normalized serialization of a URL that parses: scheme and host
/// lower-cased, default port and dot segments removed, and so on.
pub uninterp spec fn url_serialization(input: Seq<char>) -> Seq<char>;

/// Whether a text parses as a URL.
pub uninterp spec fn url_parses(input: Seq<char>) -> bool;

/// Relies on `url::Url::parse`, then `Url::as_str`: where the input parses,
/// the result is its serialization, which depends on the input alone.
#[verifier::external_body]
fn parse_url(input: &str) -> (r: Option<String>)
    ensures
        r is Some == url_parses(input@),
        r matches Some(u) ==> u@ == url_serialization(input@),
{
    match url::Url::parse(input) {
        Ok(u) => Some(u.as_str().to_owned()),
        Err(_) => None,
    }
}

/// The storage key of a request whose URL is given as text: `None` where the
/// URL does not parse, else the key over its normalized form, so that two
/// spellings of one URL share an entry.
pub fn cache_key(method: &str, url: &str) -> (r: Option<String>)
    ensures
        r is Some == url_parses(url@),
        r matches Some(k) ==> k@ == key_of(method@, url_serialization(url@)),
{
    match parse_url(url) {
        Some(u) => Some(req_key(method, u.as_str())),
        None => None,
    }
}

/// Whether a method may be answered from the cache.
pub open spec fn cacheable_method(method: Seq<char>) -> bool {
    method == seq!['G', 'E', 'T'] || method == seq!['H', 'E', 'A', 'D']
}

/// Builds the key under which a request's entry is stored.
pub fn req_key(method: &str, url: &str) -> (r: String)
    ensures
        r@ == key_of(method@, url@),
{
    let mut k = String::from_str(method);
    k.append(":");
    k.append(url);
    proof {
        reveal_strlit(":");
    }
    assert(k@ =~= key_of(method@, url@));
    k
}

/// Whether the method is `GET` or `HEAD`, the two methods that the cache serves.
pub fn is_method_get_head(method: &str) -> (r: bool)
    ensures
        r == cacheable_method(method@),
{
    let n = method.unicode_len();
    if n == 3 {
        let r = method.get_char(0) == 'G' && method.get_char(1) == 'E' && method.get_char(2)
            == 'T';
        assert(r ==> method@ =~= seq!['G', 'E', 'T']);
        r
    } else if n == 4 {
        let r = method.get_char(0) == 'H' && method.get_char(1) == 'E' && method.get_char(2)
            == 'A' && method.get_char(3) == 'D';
        assert(r ==> method@ =~= seq!['H', 'E', 'A', 'D']);
        r
    } else {
        false
    }
}

} // verus!
