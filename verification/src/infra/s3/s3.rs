use vstd::prelude::*;
use vstd::string::*;
use vstd::utf8::{decode_utf8, valid_utf8};
use crate::services::filtering::{lemma_filter_map_keeps, lemma_filter_map_len, lemma_filter_map_total};
use crate::services::response::texts;

verus! {

/// The endpoint used when none is configured.
pub open spec fn default_endpoint() -> Seq<char> {
    "http://localstack:4566"@
}

/// The endpoint to use: the configured one, or the local default.
pub open spec fn endpoint_or_default(configured: Option<Seq<char>>) -> Seq<char> {
    match configured {
        Some(e) => e,
        None => default_endpoint(),
    }
}

/// The text of an optional string.
pub open spec fn option_text(o: Option<String>) -> Option<Seq<char>> {
    match o {
        Some(s) => Some(s@),
        None => None,
    }
}

/// The configured endpoint, or the local default.
pub fn choose_endpoint(configured: Option<String>) -> (endpoint: String)
    ensures
        endpoint@ == endpoint_or_default(option_text(configured)),
{
    match configured {
        Some(e) => e,
        None => String::from_str("http://localstack:4566"),
    }
}

/// Where the object store is reached and which bucket holds the messages.
pub struct S3 {
    pub endpoint: String,
    pub bucket: String,
}

/// `Endpoint: <endpoint>, Bucket_Name: <bucket>`.
pub open spec fn s3_info_text(endpoint: Seq<char>, bucket: Seq<char>) -> Seq<char> {
    "Endpoint: "@ + endpoint + ", Bucket_Name: "@ + bucket
}

impl S3 {
    /// The settings of the object store: the configured endpoint (or the local
    /// default) and the bucket.
    pub fn new(endpoint: Option<String>, bucket: String) -> (s3: S3)
        ensures
            s3.endpoint@ == endpoint_or_default(option_text(endpoint)),
            s3.bucket@ == bucket@,
    {
        S3 { endpoint: choose_endpoint(endpoint), bucket }
    }

    /// A line that names the endpoint and the bucket.
    pub fn info(&self) -> (text: String)
        ensures
            text@ == s3_info_text(self.endpoint@, self.bucket@),
    {
        let mut text = String::from_str("Endpoint: ");
        text.append(self.endpoint.as_str());
        text.append(", Bucket_Name: ");
        text.append(self.bucket.as_str());
        text
    }
}

/// The keys that are present, in the order the listing gave them.
pub open spec fn present_keys(found: Seq<Option<String>>) -> Seq<Seq<char>> {
    found.map_values(|k: Option<String>| option_text(k)).filter_map(|k: Option<Seq<char>>| k)
}

/// The keys of a listing of the bucket: objects listed without a key are skipped.
pub fn listed_keys(found: Vec<Option<String>>) -> (keys: Vec<String>)
    ensures
        texts(keys@) == present_keys(found@),
        keys@.len() <= found@.len(),
        forall|i: int| 0 <= i < found@.len() && #[trigger] found@[i] is Some ==> texts(keys@).contains(found@[i]->Some_0@),
        (forall|i: int| 0 <= i < found@.len() ==> #[trigger] found@[i] is Some) ==> {
            &&& keys@.len() == found@.len()
            &&& forall|i: int| 0 <= i < found@.len() ==> #[trigger] keys@[i]@ == found@[i]->Some_0@
        },
{
    proof {
        lemma_present_keys(found@);
    }
    let ghost all = found@.map_values(|k: Option<String>| option_text(k));
    let mut keys: Vec<String> = Vec::new();
    let mut i: usize = 0;
    while i < found.len()
        invariant
            i <= found.len(),
            all == found@.map_values(|k: Option<String>| option_text(k)),
            texts(keys@) == all.take(i as int).filter_map(|k: Option<Seq<char>>| k),
        decreases found.len() - i,
    {
        let ghost prefix = all.take(i as int);
        assert(all.take(i as int + 1).drop_last() =~= prefix);
        match &found[i] {
            Some(key) => {
                keys.push(key.clone());
                assert(texts(keys@) =~= prefix.filter_map(|k: Option<Seq<char>>| k) + seq![key@]);
            },
            None => {},
        }
        i = i + 1;
    }
    assert(all.take(found.len() as int) =~= all);
    proof {
        assert(texts(keys@).len() == keys@.len());
        if forall|i: int| 0 <= i < found@.len() ==> #[trigger] found@[i] is Some {
            assert forall|i: int| 0 <= i < found@.len() implies #[trigger] keys@[i]@ == found@[i]->Some_0@ by {
                assert(texts(keys@)[i] == keys@[i]@);
            }
        }
    }
    keys
}

/// Of a listing: the key of every object listed with a key is kept, at most
/// one key per listed object, and when every listed object has a key, all the
/// keys in listing order.
pub proof fn lemma_present_keys(found: Seq<Option<String>>)
    ensures
        present_keys(found).len() <= found.len(),
        forall|i: int| 0 <= i < found.len() && #[trigger] found[i] is Some ==> present_keys(found).contains(found[i]->Some_0@),
        (forall|i: int| 0 <= i < found.len() ==> #[trigger] found[i] is Some) ==> {
            &&& present_keys(found).len() == found.len()
            &&& forall|i: int| 0 <= i < found.len() ==> #[trigger] present_keys(found)[i] == found[i]->Some_0@
        },
{
    let t = found.map_values(|k: Option<String>| option_text(k));
    let f = |k: Option<Seq<char>>| k;
    assert(present_keys(found) == t.filter_map(f));
    lemma_filter_map_len(t, f);
    assert forall|i: int| 0 <= i < found.len() && #[trigger] found[i] is Some implies present_keys(found).contains(found[i]->Some_0@) by {
        assert(f(t[i]) == Some(found[i]->Some_0@));
        lemma_filter_map_keeps(t, f, i);
    }
    if forall|i: int| 0 <= i < found.len() ==> #[trigger] found[i] is Some {
        assert forall|i: int| 0 <= i < t.len() implies #[trigger] f(t[i]) is Some by {
            assert(found[i] is Some);
        }
        lemma_filter_map_total(t, f);
        assert forall|i: int| 0 <= i < found.len() implies #[trigger] present_keys(found)[i] == found[i]->Some_0@ by {
            assert(Some(t.filter_map(f)[i]) == f(t[i]));
        }
    }
}

/// The text of bytes that are valid UTF-8 (`String::from_utf8`, keeping the
/// string and dropping the error). Claimed, as std documents it: a string
/// comes back exactly when the bytes are valid UTF-8, and it is what they encode.
#[verifier::external_body]
fn utf8_text(bytes: Vec<u8>) -> (text: Option<String>)
    ensures
        text is Some <==> valid_utf8(bytes@),
        text matches Some(t) ==> t@ == decode_utf8(bytes@),
{
    String::from_utf8(bytes).ok()
}

/// The message telling that a stored object is not text.
pub open spec fn not_text_error() -> Seq<char> {
    "objeto nao e texto UTF-8"@
}

/// The text of a stored object: its bytes read as UTF-8, or an error when
/// they are not valid UTF-8.
pub fn object_text(bytes: Vec<u8>) -> (text: Result<String, String>)
    ensures
        text is Ok <==> valid_utf8(bytes@),
        text matches Ok(t) ==> t@ == decode_utf8(bytes@),
        text matches Err(e) ==> e@ == not_text_error(),
{
    match utf8_text(bytes) {
        Some(t) => Ok(t),
        None => Err(String::from_str("objeto nao e texto UTF-8")),
    }
}

} // verus!
