use vstd::prelude::*;
use vstd::string::*;
use crate::infra::s3::s3::{choose_endpoint, endpoint_or_default, option_text};
use crate::services::filtering::{lemma_filter_map_keeps, lemma_filter_map_len, lemma_filter_map_source, lemma_filter_map_total};
use crate::services::response::texts;

verus! {

/// Where the queue service is reached and which queue carries the messages.
pub struct Sqs {
    pub endpoint: String,
    pub queue_url: String,
}

/// `Endpoint: <endpoint>, Queue: <queue_url>`.
pub open spec fn sqs_info_text(endpoint: Seq<char>, queue_url: Seq<char>) -> Seq<char> {
    "Endpoint: "@ + endpoint + ", Queue: "@ + queue_url
}

/// The bodies that are present, in the order the messages came.
pub open spec fn present_bodies(bodies: Seq<Option<Seq<char>>>) -> Seq<Seq<char>> {
    bodies.filter_map(|b: Option<Seq<char>>| b)
}

/// The text of each optional body.
pub open spec fn body_texts(bodies: Seq<Option<String>>) -> Seq<Option<Seq<char>>> {
    bodies.map_values(|b: Option<String>| option_text(b))
}

/// The bodies handed out for a reply of the queue: none when the reply holds
/// no message list, else the present bodies in order.
pub open spec fn received_bodies_spec(messages: Option<Seq<Option<String>>>) -> Seq<Seq<char>> {
    match messages {
        Some(ms) => present_bodies(body_texts(ms)),
        None => Seq::empty(),
    }
}

impl Sqs {
    /// The settings of the queue: the configured endpoint (or the local
    /// default) and the queue's URL.
    pub fn new(endpoint: Option<String>, queue_url: String) -> (sqs: Sqs)
        ensures
            sqs.endpoint@ == endpoint_or_default(option_text(endpoint)),
            sqs.queue_url@ == queue_url@,
    {
        Sqs { endpoint: choose_endpoint(endpoint), queue_url }
    }

    /// A line that names the endpoint and the queue.
    pub fn info(&self) -> (text: String)
        ensures
            text@ == sqs_info_text(self.endpoint@, self.queue_url@),
    {
        let mut text = String::from_str("Endpoint: ");
        text.append(self.endpoint.as_str());
        text.append(", Queue: ");
        text.append(self.queue_url.as_str());
        text
    }
}

/// The bodies of the messages a receive call returned: a missing list counts
/// as empty, and messages without a body are skipped.
pub fn received_bodies(messages: Option<Vec<Option<String>>>) -> (bodies: Vec<String>)
    ensures
        texts(bodies@) == received_bodies_spec(
            match messages {
                Some(ms) => Some(ms@),
                None => None,
            },
        ),
        messages is None ==> bodies@.len() == 0,
        messages matches Some(ms) ==> texts(bodies@) == present_bodies(body_texts(ms@)),
        messages matches Some(ms) ==> bodies@.len() <= ms@.len(),
        messages matches Some(ms) ==> forall|i: int|
            0 <= i < ms@.len() && #[trigger] ms@[i] is Some ==> texts(bodies@).contains(ms@[i]->Some_0@),
        messages matches Some(ms) ==> ((forall|i: int| 0 <= i < ms@.len() ==> #[trigger] ms@[i] is Some) ==> {
            &&& bodies@.len() == ms@.len()
            &&& forall|i: int| 0 <= i < ms@.len() ==> #[trigger] bodies@[i]@ == ms@[i]->Some_0@
        }),
{
    let ms = match messages {
        Some(ms) => ms,
        None => {
            let empty: Vec<String> = Vec::new();
            assert(texts(empty@) =~= Seq::<Seq<char>>::empty());
            return empty;
        },
    };
    proof {
        lemma_received_bodies_spec(ms@);
        lemma_option_texts_present(ms@);
    }
    let ghost all = body_texts(ms@);
    let mut bodies: Vec<String> = Vec::new();
    let mut i: usize = 0;
    while i < ms.len()
        invariant
            i <= ms.len(),
            all == body_texts(ms@),
            texts(bodies@) == present_bodies(all.take(i as int)),
        decreases ms.len() - i,
    {
        let ghost prefix = all.take(i as int);
        assert(all.take(i as int + 1).drop_last() =~= prefix);
        match &ms[i] {
            Some(body) => {
                bodies.push(body.clone());
                assert(texts(bodies@) =~= present_bodies(prefix) + seq![body@]);
            },
            None => {},
        }
        i = i + 1;
    }
    assert(all.take(ms.len() as int) =~= all);
    proof {
        assert(texts(bodies@).len() == bodies@.len());
        if forall|i: int| 0 <= i < ms@.len() ==> #[trigger] ms@[i] is Some {
            assert forall|i: int| 0 <= i < ms@.len() implies #[trigger] bodies@[i]@ == ms@[i]->Some_0@ by {
                assert(texts(bodies@)[i] == bodies@[i]@);
            }
        }
    }
    bodies
}

/// A message that carries a body has that body handed out.
pub proof fn lemma_bodies_keep_present(bodies: Seq<Option<Seq<char>>>, i: int, body: Seq<char>)
    requires
        0 <= i < bodies.len(),
        bodies[i] == Some(body),
    ensures
        present_bodies(bodies).contains(body),
{
    lemma_filter_map_keeps(bodies, |b: Option<Seq<char>>| b, i);
}

/// Every body handed out is the body of one of the messages received.
pub proof fn lemma_bodies_come_from_messages(bodies: Seq<Option<Seq<char>>>, body: Seq<char>)
    requires
        present_bodies(bodies).contains(body),
    ensures
        exists|i: int| 0 <= i < bodies.len() && #[trigger] bodies[i] == Some(body),
{
    let f = |b: Option<Seq<char>>| b;
    lemma_filter_map_source(bodies, f, body);
    let i = choose|i: int| 0 <= i < bodies.len() && #[trigger] f(bodies[i]) == Some(body);
    assert(bodies[i] == Some(body));
}

/// At most one body per message is handed out, and when every message has a
/// body, all of them are, in order.
pub proof fn lemma_bodies_count(bodies: Seq<Option<Seq<char>>>)
    ensures
        present_bodies(bodies).len() <= bodies.len(),
        (forall|i: int| 0 <= i < bodies.len() ==> #[trigger] bodies[i] is Some) ==> {
            &&& present_bodies(bodies).len() == bodies.len()
            &&& forall|i: int| 0 <= i < bodies.len() ==> Some(#[trigger] present_bodies(bodies)[i]) == bodies[i]
        },
{
    let f = |b: Option<Seq<char>>| b;
    lemma_filter_map_len(bodies, f);
    if forall|i: int| 0 <= i < bodies.len() ==> #[trigger] bodies[i] is Some {
        assert forall|i: int| 0 <= i < bodies.len() implies #[trigger] f(bodies[i]) is Some by {
            assert(bodies[i] is Some);
        }
        lemma_filter_map_total(bodies, f);
    }
}

/// The bodies handed out for a reply are the reply's present bodies, in order,
/// and none for a reply without a message list.
pub proof fn lemma_received_bodies_spec(ms: Seq<Option<String>>)
    ensures
        received_bodies_spec(Some(ms)) == present_bodies(body_texts(ms)),
        received_bodies_spec(None) == Seq::<Seq<char>>::empty(),
{
}

/// Of a list of optional strings: the text of each present string is kept, at
/// most one text per entry, and when every entry is present, all their texts
/// in order.
pub proof fn lemma_option_texts_present(v: Seq<Option<String>>)
    ensures
        body_texts(v).len() == v.len(),
        forall|i: int| 0 <= i < v.len() ==> #[trigger] body_texts(v)[i] == option_text(v[i]),
        present_bodies(body_texts(v)).len() <= v.len(),
        forall|i: int| 0 <= i < v.len() && #[trigger] v[i] is Some ==> present_bodies(body_texts(v)).contains(v[i]->Some_0@),
        (forall|i: int| 0 <= i < v.len() ==> #[trigger] v[i] is Some) ==> {
            &&& present_bodies(body_texts(v)).len() == v.len()
            &&& forall|i: int| 0 <= i < v.len() ==> #[trigger] present_bodies(body_texts(v))[i] == v[i]->Some_0@
        },
{
    let t = body_texts(v);
    lemma_bodies_count(t);
    assert forall|i: int| 0 <= i < v.len() && #[trigger] v[i] is Some implies present_bodies(t).contains(v[i]->Some_0@) by {
        assert(t[i] == Some(v[i]->Some_0@));
        lemma_bodies_keep_present(t, i, v[i]->Some_0@);
    }
    if forall|i: int| 0 <= i < v.len() ==> #[trigger] v[i] is Some {
        assert forall|i: int| 0 <= i < t.len() implies #[trigger] t[i] is Some by {
            assert(v[i] is Some);
        }
        assert forall|i: int| 0 <= i < v.len() implies #[trigger] present_bodies(t)[i] == v[i]->Some_0@ by {
            assert(Some(present_bodies(t)[i]) == t[i]);
        }
    }
}

} // verus!
