use vstd::prelude::*;
use vstd::string::*;
use crate::dto::message::Message;
use vstd::utf8::{decode_utf8, encode_utf8, encode_utf8_decode_utf8};
use crate::infra::s3::app_state::AppState;
use crate::infra::s3::object_key::{is_message_key, new_message_key};
use crate::infra::s3::repository::S3Repository;
use crate::infra::sqs::repository::SqsRepository;
use crate::services::filtering::{lemma_filter_map_keeps, lemma_filter_map_len, lemma_filter_map_source, lemma_filter_map_total};
use crate::services::response::{entries_view, result_view, texts, unit_result_view, ApiResponse, MessageEntry, ResponseView};

verus! {

/// The status text sent back once a message is stored.
pub open spec fn saved_status() -> Seq<char> {
    "salvo no S3!"@
}

/// The answer to a store request, given what the store answered.
pub open spec fn save_outcome(saved: Result<(), Seq<char>>) -> ResponseView {
    match saved {
        Ok(()) => ResponseView::Status(saved_status()),
        Err(e) => ResponseView::Failure(e),
    }
}

/// An entry for a fetched object; none for a failed fetch.
pub open spec fn ok_entry(fetched: (Seq<char>, Result<Seq<char>, Seq<char>>)) -> Option<(Seq<char>, Seq<char>)> {
    match fetched.1 {
        Ok(content) => Some((fetched.0, content)),
        Err(_) => None,
    }
}

/// Each key beside what fetching it gave.
pub open spec fn fetched_pairs(keys: Seq<Seq<char>>, contents: Seq<Result<Seq<char>, Seq<char>>>) -> Seq<(Seq<char>, Result<Seq<char>, Seq<char>>)> {
    Seq::new(keys.len(), |i: int| (keys[i], contents[i]))
}

/// The stored messages listed back: for each key in listing order whose fetch
/// succeeded, the key and the fetched text; keys whose fetch failed are left out.
pub open spec fn fetched_entries(keys: Seq<Seq<char>>, contents: Seq<Result<Seq<char>, Seq<char>>>) -> Seq<(Seq<char>, Seq<char>)> {
    fetched_pairs(keys, contents).filter_map(|p: (Seq<char>, Result<Seq<char>, Seq<char>>)| ok_entry(p))
}

/// The answer to a listing request, given what listing the bucket answered and,
/// when it answered keys, what fetching each of them gave (`contents[i]` for `keys[i]`).
pub open spec fn read_outcome(listed: Result<Seq<Seq<char>>, Seq<char>>, contents: Seq<Result<Seq<char>, Seq<char>>>) -> ResponseView {
    match listed {
        Ok(keys) => ResponseView::Messages(fetched_entries(keys, contents)),
        Err(e) => ResponseView::Failure(e),
    }
}

/// One fetch result for each listed key (nothing is fetched after a failed listing).
pub open spec fn fetches_match(listed: Result<Seq<Seq<char>>, Seq<char>>, contents: Seq<Result<Seq<char>, Seq<char>>>) -> bool {
    match listed {
        Ok(keys) => keys.len() == contents.len(),
        Err(_) => contents.len() == 0,
    }
}

/// The value of a listing answer.
pub open spec fn listing_view(listed: Result<Vec<String>, String>) -> Result<Seq<Seq<char>>, Seq<char>> {
    match listed {
        Ok(keys) => Ok(texts(keys@)),
        Err(e) => Err(e@),
    }
}

/// The values of a vector of fetch answers.
pub open spec fn contents_view(contents: Seq<Result<String, String>>) -> Seq<Result<Seq<char>, Seq<char>>> {
    contents.map_values(|r: Result<String, String>| result_view(r))
}

/// The answer to a store request: the stored status, or the store's error.
pub fn save_response(saved: Result<(), String>) -> (response: ApiResponse)
    ensures
        response@ == save_outcome(
            match saved {
                Ok(()) => Ok(()),
                Err(e) => Err(e@),
            },
        ),
        saved is Ok ==> (response matches ApiResponse::Status(t) && t@ == "salvo no S3!"@),
        saved matches Err(e) ==> (response matches ApiResponse::Failure(f) && f@ == e@),
{
    match saved {
        Ok(()) => ApiResponse::Status(String::from_str("salvo no S3!")),
        Err(e) => ApiResponse::Failure(e),
    }
}

/// The answer to a listing request. `contents[i]` is what fetching `keys[i]`
/// gave, where the listing answered `keys`.
pub fn read_response(listed: Result<Vec<String>, String>, contents: Vec<Result<String, String>>) -> (response: ApiResponse)
    requires
        listed matches Ok(keys) ==> keys.len() == contents.len(),
    ensures
        response@ == read_outcome(listing_view(listed), contents_view(contents@)),
{
    let keys = match listed {
        Ok(keys) => keys,
        Err(e) => {
            return ApiResponse::Failure(e);
        },
    };
    let ghost pairs = fetched_pairs(texts(keys@), contents_view(contents@));
    let mut entries: Vec<MessageEntry> = Vec::new();
    let mut i: usize = 0;
    while i < keys.len()
        invariant
            i <= keys.len(),
            keys.len() == contents.len(),
            pairs == fetched_pairs(texts(keys@), contents_view(contents@)),
            entries_view(entries@) == pairs.take(i as int).filter_map(
                |p: (Seq<char>, Result<Seq<char>, Seq<char>>)| ok_entry(p),
            ),
        decreases keys.len() - i,
    {
        let ghost prefix = pairs.take(i as int);
        assert(pairs.take(i as int + 1).drop_last() =~= prefix);
        assert(pairs.take(i as int + 1).last() == pairs[i as int]);
        match &contents[i] {
            Ok(content) => {
                entries.push(MessageEntry { id: keys[i].clone(), content: content.clone() });
                assert(entries_view(entries@) =~= prefix.filter_map(
                    |p: (Seq<char>, Result<Seq<char>, Seq<char>>)| ok_entry(p),
                ) + seq![(keys@[i as int]@, content@)]);
            },
            Err(_) => {},
        }
        i = i + 1;
    }
    assert(pairs.take(keys.len() as int) =~= pairs);
    ApiResponse::Messages(entries)
}

/// Every listed key was fetched from `bucket`, and what the `i`-th fetch gave is
/// an answer the store may give to fetching the `i`-th key.
pub open spec fn fetches_answered<S: S3Repository>(
    store: &S,
    bucket: Seq<char>,
    listed: Result<Seq<Seq<char>>, Seq<char>>,
    contents: Seq<Result<Seq<char>, Seq<char>>>,
) -> bool {
    listed matches Ok(keys) ==> forall|i: int|
        0 <= i < keys.len() ==> #[trigger] store.get_answer(bucket, keys[i], contents[i])
}

/// `response` answers a listing request on `bucket` of `store`: the store
/// answered the listing of `bucket` with `listed`, each listed key was then
/// fetched from `bucket`, and the answer is `read_outcome` of what came back.
pub open spec fn read_answer<S: S3Repository>(store: &S, bucket: Seq<char>, response: ResponseView) -> bool {
    exists|listed: Result<Seq<Seq<char>>, Seq<char>>, contents: Seq<Result<Seq<char>, Seq<char>>>|
        #[trigger] read_outcome(listed, contents) == response
        && fetches_match(listed, contents)
        && store.list_answer(bucket, listed)
        && fetches_answered(store, bucket, listed, contents)
}

/// Lists the stored messages: lists the bucket, fetches each listed key in
/// order from the bucket, and answers with the messages fetched (a failed
/// listing is answered with its error, a failed fetch leaves its key out).
pub fn read_message<S: S3Repository, Q: SqsRepository>(state: &AppState<S, Q>) -> (response: ApiResponse)
    ensures
        read_answer(&state.s3, state.bucket@, response@),
{
    let listed = state.s3.list(state.bucket.as_str());
    let keys = match listed {
        Ok(keys) => keys,
        Err(e) => {
            let response = read_response(Err(e), Vec::new());
            let ghost empty = Seq::<Result<Seq<char>, Seq<char>>>::empty();
            assert(contents_view(Seq::<Result<String, String>>::empty()) =~= empty);
            assert(read_outcome(Err(e@), empty) == response@ && fetches_match(Err(e@), empty)
                && state.s3.list_answer(state.bucket@, Err(e@))
                && fetches_answered(&state.s3, state.bucket@, Err(e@), empty));
            return response;
        },
    };
    let ghost listed_view: Result<Seq<Seq<char>>, Seq<char>> = Ok(texts(keys@));
    assert(state.s3.list_answer(state.bucket@, listed_view));
    let mut contents: Vec<Result<String, String>> = Vec::new();
    let mut i: usize = 0;
    while i < keys.len()
        invariant
            i <= keys.len(),
            contents.len() == i,
            forall|j: int|
                0 <= j < i ==> #[trigger] state.s3.get_answer(state.bucket@, keys@[j]@, result_view(contents@[j])),
        decreases keys.len() - i,
    {
        let fetched = state.s3.get(state.bucket.as_str(), keys[i].as_str());
        contents.push(fetched);
        i = i + 1;
    }
    let ghost fetched_view = contents_view(contents@);
    assert forall|j: int| 0 <= j < texts(keys@).len() implies #[trigger] state.s3.get_answer(
        state.bucket@,
        texts(keys@)[j],
        fetched_view[j],
    ) by {
        assert(state.s3.get_answer(state.bucket@, keys@[j]@, result_view(contents@[j])));
    }
    assert(fetches_answered(&state.s3, state.bucket@, listed_view, fetched_view));
    let response = read_response(Ok(keys), contents);
    assert(read_outcome(listed_view, fetched_view) == response@ && fetches_match(listed_view, fetched_view));
    response
}

/// The object a message is stored as: a fresh message key, and the message's
/// text encoded as UTF-8.
pub fn stored_object(payload: Message) -> (object: (String, Vec<u8>))
    ensures
        is_message_key(object.0@),
        object.1@ == encode_utf8(payload.content@),
{
    let key = new_message_key();
    let content = payload.content.as_str().as_bytes_vec();
    (key, content)
}

/// Stores a message: puts its text, UTF-8 encoded, into the bucket under a
/// fresh key and answers with the stored status or the store's error.
pub fn save_message<S: S3Repository, Q: SqsRepository>(state: &AppState<S, Q>, payload: Message) -> (response: ApiResponse)
    ensures
        exists|key: Seq<char>, saved: Result<(), Seq<char>>|
            is_message_key(key)
            && #[trigger] state.s3.save_answer(state.bucket@, key, encode_utf8(payload.content@), saved)
            && response@ == save_outcome(saved),
{
    let ghost content_text = payload.content@;
    let (key, content) = stored_object(payload);
    let saved = state.s3.save(state.bucket.as_str(), key.as_str(), content);
    let response = save_response(saved);
    let ghost saved_view = unit_result_view(saved);
    assert(is_message_key(key@) && state.s3.save_answer(state.bucket@, key@, encode_utf8(content_text), saved_view)
        && response@ == save_outcome(saved_view));
    response
}

/// A listed key whose fetch succeeded is answered with the fetched text: what
/// the store gives back of a stored message is in the listing's answer.
pub proof fn lemma_read_gives_back_fetched(keys: Seq<Seq<char>>, contents: Seq<Result<Seq<char>, Seq<char>>>, i: int, content: Seq<char>)
    requires
        keys.len() == contents.len(),
        0 <= i < keys.len(),
        contents[i] == Ok::<Seq<char>, Seq<char>>(content),
    ensures
        read_outcome(Ok(keys), contents) == ResponseView::Messages(fetched_entries(keys, contents)),
        fetched_entries(keys, contents).contains((keys[i], content)),
{
    let pairs = fetched_pairs(keys, contents);
    let f = |p: (Seq<char>, Result<Seq<char>, Seq<char>>)| ok_entry(p);
    assert(f(pairs[i]) == Some((keys[i], content)));
    lemma_filter_map_keeps(pairs, f, i);
}

/// Every message in a listing's answer is a listed key together with what
/// fetching that key gave.
pub proof fn lemma_read_answers_only_fetched(keys: Seq<Seq<char>>, contents: Seq<Result<Seq<char>, Seq<char>>>, entry: (Seq<char>, Seq<char>))
    requires
        keys.len() == contents.len(),
        fetched_entries(keys, contents).contains(entry),
    ensures
        exists|i: int| 0 <= i < keys.len() && keys[i] == entry.0 && #[trigger] contents[i] == Ok::<Seq<char>, Seq<char>>(entry.1),
{
    let pairs = fetched_pairs(keys, contents);
    let f = |p: (Seq<char>, Result<Seq<char>, Seq<char>>)| ok_entry(p);
    lemma_filter_map_source(pairs, f, entry);
    let i = choose|i: int| 0 <= i < pairs.len() && #[trigger] f(pairs[i]) == Some(entry);
    assert(keys[i] == entry.0 && contents[i] == Ok::<Seq<char>, Seq<char>>(entry.1));
}

/// A listing's answer holds at most one message per listed key, and exactly the
/// listed keys, in listing order, when every fetch succeeded.
pub proof fn lemma_read_count(keys: Seq<Seq<char>>, contents: Seq<Result<Seq<char>, Seq<char>>>)
    requires
        keys.len() == contents.len(),
    ensures
        fetched_entries(keys, contents).len() <= keys.len(),
        (forall|i: int| 0 <= i < keys.len() ==> #[trigger] contents[i] is Ok) ==> {
            &&& fetched_entries(keys, contents).len() == keys.len()
            &&& forall|i: int| 0 <= i < keys.len() ==> #[trigger] fetched_entries(keys, contents)[i] == (keys[i], contents[i]->Ok_0)
        },
{
    let pairs = fetched_pairs(keys, contents);
    let f = |p: (Seq<char>, Result<Seq<char>, Seq<char>>)| ok_entry(p);
    lemma_filter_map_len(pairs, f);
    if forall|i: int| 0 <= i < keys.len() ==> #[trigger] contents[i] is Ok {
        assert forall|i: int| 0 <= i < pairs.len() implies #[trigger] f(pairs[i]) is Some by {
            assert(contents[i] is Ok);
        }
        lemma_filter_map_total(pairs, f);
        assert forall|i: int| 0 <= i < keys.len() implies #[trigger] fetched_entries(keys, contents)[i] == (keys[i], contents[i]->Ok_0) by {
            assert(Some(pairs.filter_map(f)[i]) == f(pairs[i]));
        }
    }
}

/// An empty bucket is answered with an empty list of messages.
pub proof fn lemma_read_empty_bucket(contents: Seq<Result<Seq<char>, Seq<char>>>)
    requires
        contents.len() == 0,
    ensures
        read_outcome(Ok(Seq::empty()), contents) == ResponseView::Messages(Seq::empty()),
{
    let pairs = fetched_pairs(Seq::empty(), contents);
    assert(pairs.len() == 0);
    assert(fetched_entries(Seq::empty(), contents) =~= Seq::empty());
}

/// The store keeps the object `bytes` under `key` in `bucket`: every listing
/// of `bucket` it may answer succeeds and includes `key`, and every fetch of
/// `key` from `bucket` it may answer gives `bytes` read as UTF-8.
pub open spec fn keeps_object<S: S3Repository>(store: &S, bucket: Seq<char>, key: Seq<char>, bytes: Seq<u8>) -> bool {
    &&& forall|listed: Result<Seq<Seq<char>>, Seq<char>>|
        #[trigger] store.list_answer(bucket, listed) ==> (listed matches Ok(keys) && keys.contains(key))
    &&& forall|fetched: Result<Seq<char>, Seq<char>>|
        #[trigger] store.get_answer(bucket, key, fetched) ==> fetched == Ok::<Seq<char>, Seq<char>>(decode_utf8(bytes))
}

/// Save, then read: when a save of `content` asked the store to keep its
/// UTF-8 bytes under `key` in `bucket` (as `save_message` does, with a
/// message key), and the store keeps that object, then the answer to a later
/// listing request on `bucket` holds `key` with `content`.
pub proof fn lemma_save_then_read<S: S3Repository>(
    store: &S,
    bucket: Seq<char>,
    content: Seq<char>,
    key: Seq<char>,
    response: ResponseView,
)
    requires
        is_message_key(key),
        store.save_answer(bucket, key, encode_utf8(content), Ok(())),
        keeps_object(store, bucket, key, encode_utf8(content)),
        read_answer(store, bucket, response),
    ensures
        response matches ResponseView::Messages(entries) && entries.contains((key, content)),
{
    let (listed, contents) = choose|listed: Result<Seq<Seq<char>>, Seq<char>>, contents: Seq<Result<Seq<char>, Seq<char>>>|
        #[trigger] read_outcome(listed, contents) == response
        && fetches_match(listed, contents)
        && store.list_answer(bucket, listed)
        && fetches_answered(store, bucket, listed, contents);
    assert(store.list_answer(bucket, listed));
    let keys = listed->Ok_0;
    assert(keys.contains(key));
    let i = choose|i: int| 0 <= i < keys.len() && keys[i] == key;
    assert(store.get_answer(bucket, keys[i], contents[i]));
    encode_utf8_decode_utf8(content);
    assert(contents[i] == Ok::<Seq<char>, Seq<char>>(content));
    lemma_read_gives_back_fetched(keys, contents, i, content);
}

/// Save, then read, on a bucket that held nothing before: when the store
/// accepted the UTF-8 bytes of `content` under the message key `key` in
/// `bucket`, every listing of `bucket` it may answer is exactly `[key]`, and
/// every fetch of `key` gives the saved bytes read as UTF-8, then a later
/// listing request on `bucket` is answered with that one message and nothing else.
pub proof fn lemma_save_then_read_only<S: S3Repository>(
    store: &S,
    bucket: Seq<char>,
    content: Seq<char>,
    key: Seq<char>,
    response: ResponseView,
)
    requires
        is_message_key(key),
        store.save_answer(bucket, key, encode_utf8(content), Ok(())),
        forall|listed: Result<Seq<Seq<char>>, Seq<char>>|
            #[trigger] store.list_answer(bucket, listed) ==> listed == Ok::<Seq<Seq<char>>, Seq<char>>(seq![key]),
        forall|fetched: Result<Seq<char>, Seq<char>>|
            #[trigger] store.get_answer(bucket, key, fetched) ==> fetched == Ok::<Seq<char>, Seq<char>>(decode_utf8(encode_utf8(content))),
        read_answer(store, bucket, response),
    ensures
        response == ResponseView::Messages(seq![(key, content)]),
{
    let (listed, contents) = choose|listed: Result<Seq<Seq<char>>, Seq<char>>, contents: Seq<Result<Seq<char>, Seq<char>>>|
        #[trigger] read_outcome(listed, contents) == response
        && fetches_match(listed, contents)
        && store.list_answer(bucket, listed)
        && fetches_answered(store, bucket, listed, contents);
    assert(store.list_answer(bucket, listed));
    let keys = listed->Ok_0;
    assert(keys == seq![key]);
    assert(store.get_answer(bucket, keys[0], contents[0]));
    encode_utf8_decode_utf8(content);
    assert(contents[0] == Ok::<Seq<char>, Seq<char>>(content));
    lemma_read_count(keys, contents);
    assert(fetched_entries(keys, contents) =~= seq![(key, content)]);
}

/// The health check's answer.
pub fn health_handler() -> (text: &'static str)
    ensures
        text@ == "OK"@,
{
    "OK"
}

} // verus!
