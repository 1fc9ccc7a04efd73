//! The pure computations of the search client: the request URL for one
//! query/limit pair, and the mapping of a raw response — transport
//! status plus a maybe-decoded payload — to its outcome message.
//! Issuing the HTTP request itself is the caller's business.

use vstd::prelude::*;
use vstd::string::*;
use crate::data::SearchResponse;
use crate::message::{ErrorKind, WorkerMessage};

verus! {

/// The catalog accepts result-count bounds up to this value.
pub const MAX_RESULT_BOUND: u8 = 25;

/// How one query character appears in the request URL: a space becomes
/// `%20`, everything else stands for itself.
pub open spec fn encoded_char(c: char) -> Seq<char> {
    if c == ' ' {
        seq!['%', '2', '0']
    } else {
        seq![c]
    }
}

/// The URL encoding of a whole query.
pub open spec fn encoded_query(q: Seq<char>) -> Seq<char>
    decreases q.len(),
{
    if q.len() == 0 {
        Seq::<char>::empty()
    } else {
        encoded_query(q.drop_last()) + encoded_char(q.last())
    }
}

/// The character for one decimal digit.
pub open spec fn digit_char(d: int) -> char {
    if d == 0 {
        '0'
    } else if d == 1 {
        '1'
    } else if d == 2 {
        '2'
    } else if d == 3 {
        '3'
    } else if d == 4 {
        '4'
    } else if d == 5 {
        '5'
    } else if d == 6 {
        '6'
    } else if d == 7 {
        '7'
    } else if d == 8 {
        '8'
    } else {
        '9'
    }
}

/// The decimal rendering of a result bound (at most two digits).
pub open spec fn decimal_digits(m: int) -> Seq<char> {
    if m < 10 {
        seq![digit_char(m)]
    } else {
        seq![digit_char(m / 10), digit_char(m % 10)]
    }
}

/// The full search request URL for one query, credential and bound.
pub open spec fn search_url_view(q: Seq<char>, key: Seq<char>, max: int) -> Seq<char> {
    "https://www.googleapis.com/youtube/v3/search?part=snippet&q="@ + encoded_query(q) + "&key="@
        + key + "&maxResults="@ + decimal_digits(max) + "&type=video"@
}

/// URL-encode a query string; only spaces need escaping here.
pub fn encode_query(q: &str) -> (r: String)
    ensures
        r@ == encoded_query(q@),
{
    let n = q.unicode_len();
    let mut out = String::new();
    let mut i: usize = 0;
    while i < n
        invariant
            i <= n,
            n == q@.len(),
            out@ == encoded_query(q@.take(i as int)),
        decreases n - i,
    {
        let c = q.get_char(i);
        proof {
            assert(q@.take(i + 1).drop_last() =~= q@.take(i as int));
            assert(q@.take(i + 1).last() == q@[i as int]);
        }
        if c == ' ' {
            out.append("%20");
            proof {
                reveal_strlit("%20");
                assert("%20"@ =~= seq!['%', '2', '0']);
            }
        } else {
            let piece = q.substring_char(i, i + 1);
            out.append(piece);
            proof {
                assert(piece@ =~= seq![q@[i as int]]);
            }
        }
        i = i + 1;
    }
    proof {
        assert(q@.take(n as int) =~= q@);
    }
    out
}

/// One decimal digit as a string slice.
fn digit_str(d: u8) -> (r: &'static str)
    requires
        d < 10,
    ensures
        r@ == seq![digit_char(d as int)],
{
    proof {
        reveal_strlit("0");
        reveal_strlit("1");
        reveal_strlit("2");
        reveal_strlit("3");
        reveal_strlit("4");
        reveal_strlit("5");
        reveal_strlit("6");
        reveal_strlit("7");
        reveal_strlit("8");
        reveal_strlit("9");
        assert("0"@ =~= seq!['0']);
        assert("1"@ =~= seq!['1']);
        assert("2"@ =~= seq!['2']);
        assert("3"@ =~= seq!['3']);
        assert("4"@ =~= seq!['4']);
        assert("5"@ =~= seq!['5']);
        assert("6"@ =~= seq!['6']);
        assert("7"@ =~= seq!['7']);
        assert("8"@ =~= seq!['8']);
        assert("9"@ =~= seq!['9']);
    }
    if d == 0 {
        "0"
    } else if d == 1 {
        "1"
    } else if d == 2 {
        "2"
    } else if d == 3 {
        "3"
    } else if d == 4 {
        "4"
    } else if d == 5 {
        "5"
    } else if d == 6 {
        "6"
    } else if d == 7 {
        "7"
    } else if d == 8 {
        "8"
    } else {
        "9"
    }
}

/// Build the search request URL: fixed endpoint and parameter template,
/// the query URL-encoded, the credential and the bound inserted.
pub fn build_search_url(query: &str, key: &str, max_results: u8) -> (r: String)
    requires
        max_results <= MAX_RESULT_BOUND,
    ensures
        r@ == search_url_view(query@, key@, max_results as int),
{
    let mut url = String::new();
    url.append("https://www.googleapis.com/youtube/v3/search?part=snippet&q=");
    let encoded = encode_query(query);
    url.append(encoded.as_str());
    url.append("&key=");
    url.append(key);
    url.append("&maxResults=");
    if max_results < 10 {
        url.append(digit_str(max_results));
    } else {
        url.append(digit_str(max_results / 10));
        url.append(digit_str(max_results % 10));
    }
    url.append("&type=video");
    proof {
        assert(url@ =~= search_url_view(query@, key@, max_results as int));
    }
    url
}

/// A search may only proceed with a configured credential; its absence
/// is a distinct, fatal configuration error, not a transient failure.
pub fn validate_credential(key: Option<String>) -> (r: Result<String, ErrorKind>)
    ensures
        key matches Some(k) ==> r == Result::<String, ErrorKind>::Ok(k),
        key is None ==> r == Result::<String, ErrorKind>::Err(ErrorKind::MissingCredential),
{
    match key {
        Some(k) => Ok(k),
        None => Err(ErrorKind::MissingCredential),
    }
}

/// The outcome message one finished search posts, given the transport
/// status and the decoded payload, if decoding succeeded: a 2xx status
/// with a decoded result set is `Data`; a non-2xx status is a transport
/// error; a 2xx status whose payload did not decode is a decode error.
pub fn search_outcome(status: u16, parsed: Option<SearchResponse>) -> (r: WorkerMessage)
    ensures
        200 <= status < 300 ==> (parsed matches Some(set) ==> r == WorkerMessage::Data(set)),
        200 <= status < 300 && parsed is None ==> (r matches WorkerMessage::Error(c, d)
            && c is None && d@ == "search response could not be decoded"@),
        !(200 <= status < 300) ==> (r matches WorkerMessage::Error(c, d) && c is None
            && d@ == "search request failed"@),
    {
    if status < 200 || status >= 300 {
        WorkerMessage::Error(None, ErrorKind::Transport.describe())
    } else {
        match parsed {
            Some(set) => WorkerMessage::Data(set),
            None => WorkerMessage::Error(None, ErrorKind::Decode.describe()),
        }
    }
}

} // verus!
