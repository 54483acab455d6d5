//! The paged annotation cursor: the search-result pages of one created
//! search, presented as a single sequential stream of annotation records.
//!
//! The cursor itself never touches the network. It buffers the items of the
//! page it was last given, hands them out front to back, says when the next
//! page must be fetched (only when the buffer is exhausted and the last page
//! was not empty), and ingests each fetched page after validating its shape.
//! A driver owning a transport runs the loop: ask `needs_fetch`, fetch
//! `next_page_url`, hand the document to `ingest_page`, and pull items with
//! `next_buffered`.
//!
//! The ghost model records the item list of every page ingested so far
//! (`pages`) and the items already handed out (`consumed`); well-formedness
//! ties the exec state to that history: what was handed out followed by what
//! is still buffered is exactly the concatenation of the served pages, so no
//! record is reordered, duplicated, dropped or invented.

use vstd::prelude::*;

use std::collections::VecDeque;

use crate::client::spec_search_url;
use crate::client::AnnoRepoClient;
use crate::decimal::decimal_chars;
use crate::decimal::u32_to_decimal;
use crate::error::Error;
use crate::page::page_items;
use crate::page::spec_page_items;

verus! {

/// Turns a page's item list into the consumption queue, order kept.
fn queue_of_items(items: Vec<serde_json::Value>) -> (q: VecDeque<serde_json::Value>)
    ensures
        q@ == items@,
{
    let mut rest = items;
    let ghost all = rest@;
    let mut q: VecDeque<serde_json::Value> = VecDeque::new();
    while rest.len() > 0
        invariant
            rest@ + q@ == all,
        decreases rest@.len(),
    {
        let item = rest.pop().unwrap();
        q.push_front(item);
        proof {
            assert(rest@ + q@ =~= all);
        }
    }
    proof {
        assert(q@ =~= all);
    }
    q
}

/// A cursor over the result pages of one created search. Single-owner and
/// not restartable: re-iterating means building a new cursor.
pub struct AnnoIter {
    client: AnnoRepoClient,
    url: String,
    cur_page: u32,
    annotations: VecDeque<serde_json::Value>,
    finished: bool,
    start_page: Ghost<u32>,
    served: Ghost<Seq<Seq<serde_json::Value>>>,
    handed_out: Ghost<Seq<serde_json::Value>>,
}

impl AnnoIter {
    /// The item lists of the pages ingested so far, in fetch order.
    pub closed spec fn pages(&self) -> Seq<Seq<serde_json::Value>> {
        self.served@
    }

    /// The annotations already handed out, in emission order.
    pub closed spec fn consumed(&self) -> Seq<serde_json::Value> {
        self.handed_out@
    }

    /// The annotations of the latest page not yet handed out, front first.
    pub closed spec fn buffered(&self) -> Seq<serde_json::Value> {
        self.annotations@
    }

    /// The number of the page fetched most recently.
    pub closed spec fn page_number(&self) -> u32 {
        self.cur_page
    }

    /// The page number the cursor started from.
    pub closed spec fn first_page_number(&self) -> u32 {
        self.start_page@
    }

    /// Whether the end of the result set was observed: a fetch returned an
    /// empty page, and no further page will be asked for.
    pub closed spec fn is_finished(&self) -> bool {
        self.finished
    }

    /// The canonical URL of the search this cursor walks, without its page
    /// query parameter.
    pub closed spec fn spec_url(&self) -> Seq<char> {
        self.url@
    }

    /// The client configuration the cursor was built from.
    pub closed spec fn spec_client(&self) -> AnnoRepoClient {
        self.client
    }

    /// The cursor invariant. The page counter has advanced once per page
    /// after the first; an empty page can only be the last one served and is
    /// exactly what finishes the cursor; and the emitted items followed by
    /// the buffered ones are the served pages' items, concatenated in server
    /// order.
    pub closed spec fn wf(&self) -> bool {
        &&& self.served@.len() >= 1
        &&& self.cur_page as int == self.start_page@ + self.served@.len() - 1
        &&& (forall|i: int| 0 <= i < self.served@.len() - 1 ==> self.served@[i].len() > 0)
        &&& self.finished == (self.served@.last().len() == 0)
        &&& self.handed_out@ + self.annotations@ == self.served@.flatten()
        &&& (self.finished ==> self.annotations@.len() == 0)
    }

    /// Builds a cursor directly from the validated item list of its first
    /// page. `new` does the validating; a driver that already holds the
    /// items (or a test) can start here.
    pub fn from_items(
        client: &AnnoRepoClient,
        container_name: &str,
        search_id: &str,
        start_page: u32,
        items: Vec<serde_json::Value>,
    ) -> (it: AnnoIter)
        ensures
            it.wf(),
            it.pages() == seq![items@],
            it.consumed() == Seq::<serde_json::Value>::empty(),
            it.buffered() == items@,
            it.page_number() == start_page,
            it.first_page_number() == start_page,
            it.is_finished() == (items@.len() == 0),
            it.spec_url() == spec_search_url(client.base_url@, container_name@, search_id@),
            it.spec_client() == *client,
    {
        let url = client.search_url(container_name, search_id);
        let annotations = queue_of_items(items);
        let finished = annotations.len() == 0;
        let ghost first_served: Seq<Seq<serde_json::Value>> = seq![items@];
        let it = AnnoIter {
            client: client.duplicate(),
            url,
            cur_page: start_page,
            annotations,
            finished,
            start_page: Ghost(start_page),
            served: Ghost(first_served),
            handed_out: Ghost(Seq::empty()),
        };
        proof {
            it.served@.lemma_flatten_singleton();
            assert(it.handed_out@ + it.annotations@ =~= it.served@.flatten());
        }
        it
    }

    /// Builds a cursor from the first fetched page, validating its shape:
    /// construction succeeds, buffering exactly the page's items, if and
    /// only if the document carries an `items` array; any other document
    /// fails construction with the malformed-page error carrying that
    /// document.
    pub fn new(
        client: &AnnoRepoClient,
        container_name: &str,
        search_id: &str,
        start_page: u32,
        first_page: serde_json::Value,
    ) -> (r: Result<AnnoIter, Error>)
        ensures
            r is Ok <==> spec_page_items(first_page) is Some,
            r matches Ok(it) ==> {
                &&& it.wf()
                &&& it.buffered() == spec_page_items(first_page).unwrap()
                &&& it.pages().len() == 1
                &&& it.pages()[0] == it.buffered()
                &&& it.consumed() == Seq::<serde_json::Value>::empty()
                &&& it.page_number() == start_page
                &&& it.first_page_number() == start_page
                &&& it.is_finished() == (it.buffered().len() == 0)
                &&& it.spec_url() == spec_search_url(
                    client.base_url@,
                    container_name@,
                    search_id@,
                )
                &&& it.spec_client() == *client
            },
            r is Err ==> r == Err::<AnnoIter, Error>(Error::MalformedAnnotationPage(first_page)),
    {
        match page_items(first_page) {
            Ok(items) => Ok(
                AnnoIter::from_items(client, container_name, search_id, start_page, items),
            ),
            Err(e) => Err(e),
        }
    }

    /// Hands out the front of the buffer, if anything is buffered: items
    /// leave in first-in-first-out order, so the server's per-page order is
    /// kept. Nothing else changes; an empty buffer returns `None` and leaves
    /// the cursor as it was (deciding whether to fetch is `needs_fetch`'s
    /// business).
    pub fn next_buffered(&mut self) -> (r: Option<serde_json::Value>)
        requires
            old(self).wf(),
        ensures
            final(self).wf(),
            old(self).buffered().len() == 0 ==> r is None && final(self).buffered() == old(
                self,
            ).buffered() && final(self).consumed() == old(self).consumed(),
            old(self).buffered().len() > 0 ==> {
                &&& r == Some(old(self).buffered()[0])
                &&& final(self).buffered() == old(self).buffered().drop_first()
                &&& final(self).consumed() == old(self).consumed().push(old(self).buffered()[0])
            },
            final(self).pages() == old(self).pages(),
            final(self).page_number() == old(self).page_number(),
            final(self).first_page_number() == old(self).first_page_number(),
            final(self).is_finished() == old(self).is_finished(),
            final(self).spec_url() == old(self).spec_url(),
            final(self).spec_client() == old(self).spec_client(),
    {
        match self.annotations.pop_front() {
            Some(anno) => {
                self.handed_out = Ghost(self.handed_out@.push(anno));
                proof {
                    assert(self.handed_out@ + self.annotations@ =~= old(self).handed_out@ + old(
                        self,
                    ).annotations@);
                }
                Some(anno)
            },
            None => None,
        }
    }

    /// Whether the next page must be fetched now: the buffer is exhausted,
    /// the end of the results has not been observed, and the page counter
    /// can still advance. Once `false` with an empty buffer, it stays
    /// `false`: the sequence has ended.
    pub open spec fn spec_needs_fetch(&self) -> bool {
        &&& !self.is_finished()
        &&& self.buffered().len() == 0
        &&& self.page_number() < u32::MAX
    }

    /// The fetch decision, exactly as `spec_needs_fetch` states it. Pages
    /// are fetched one at a time and only on demand: while anything is
    /// buffered, or after an empty page, no fetch is asked for.
    pub fn needs_fetch(&self) -> (b: bool)
        ensures
            b == self.spec_needs_fetch(),
    {
        !self.finished && self.annotations.len() == 0 && self.cur_page < u32::MAX
    }

    /// The URL of the page to fetch next: the search URL with the next page
    /// number as its `page` query parameter.
    pub fn next_page_url(&self) -> (url: String)
        requires
            self.spec_needs_fetch(),
        ensures
            url@ == self.spec_url() + "?page="@ + decimal_chars(self.page_number() + 1),
    {
        self.url.clone().concat("?page=").concat(u32_to_decimal(self.cur_page + 1).as_str())
    }

    /// Ingests the validated item list of the next page: the page counter
    /// advances by exactly one, the buffer is replaced by the new items, and
    /// an empty list finishes the cursor for good.
    pub fn ingest_items(&mut self, items: Vec<serde_json::Value>)
        requires
            old(self).wf(),
            old(self).spec_needs_fetch(),
        ensures
            final(self).wf(),
            final(self).pages() == old(self).pages().push(items@),
            final(self).buffered() == items@,
            final(self).consumed() == old(self).consumed(),
            final(self).page_number() == old(self).page_number() + 1,
            final(self).first_page_number() == old(self).first_page_number(),
            final(self).is_finished() == (items@.len() == 0),
            final(self).spec_url() == old(self).spec_url(),
            final(self).spec_client() == old(self).spec_client(),
    {
        let queue = queue_of_items(items);
        self.cur_page = self.cur_page + 1;
        self.finished = queue.len() == 0;
        self.annotations = queue;
        self.served = Ghost(self.served@.push(items@));
        proof {
            old(self).served@.lemma_flatten_push(items@);
            assert(self.handed_out@ + self.annotations@ =~= self.served@.flatten());
            // The page that was last before this one is not empty: the
            // cursor was not finished when the fetch was asked for.
            assert(forall|i: int|
                0 <= i < self.served@.len() - 1 ==> self.served@[i].len() > 0) by {
                assert(old(self).served@.last() == self.served@[self.served@.len() - 2]);
            }
        }
    }

    /// Ingests the next fetched page after validating its shape: the page's
    /// items are buffered, if and only if the document carries an `items`
    /// array. Any other document is the malformed-page error, carrying the
    /// document; the cursor is left exactly as it was, and the caller must
    /// treat the error as a hard stop.
    pub fn ingest_page(&mut self, page: serde_json::Value) -> (r: Result<(), Error>)
        requires
            old(self).wf(),
            old(self).spec_needs_fetch(),
        ensures
            final(self).wf(),
            r is Ok <==> spec_page_items(page) is Some,
            r is Ok ==> {
                &&& final(self).buffered() == spec_page_items(page).unwrap()
                &&& final(self).pages() == old(self).pages().push(final(self).buffered())
                &&& final(self).consumed() == old(self).consumed()
                &&& final(self).page_number() == old(self).page_number() + 1
                &&& final(self).first_page_number() == old(self).first_page_number()
                &&& final(self).is_finished() == (final(self).buffered().len() == 0)
                &&& final(self).spec_url() == old(self).spec_url()
                &&& final(self).spec_client() == old(self).spec_client()
            },
            r is Err ==> *final(self) == *old(self) && r == Err::<(), Error>(
                Error::MalformedAnnotationPage(page),
            ),
    {
        match page_items(page) {
            Ok(items) => {
                self.ingest_items(items);
                Ok(())
            },
            Err(e) => Err(e),
        }
    }

    /// The number of the page fetched most recently.
    pub fn current_page(&self) -> (p: u32)
        ensures
            p == self.page_number(),
    {
        self.cur_page
    }

    /// Whether the end of the result set was observed.
    pub fn finished(&self) -> (b: bool)
        ensures
            b == self.is_finished(),
    {
        self.finished
    }

    /// How many annotations of the latest page are still buffered.
    pub fn buffered_len(&self) -> (n: usize)
        ensures
            n == self.buffered().len(),
    {
        self.annotations.len()
    }
}

/// If a sequence is split into two parts, the parts are its prefix and
/// suffix at the split point.
proof fn lemma_concat_parts<A>(front: Seq<A>, back: Seq<A>, whole: Seq<A>)
    requires
        front + back == whole,
    ensures
        front == whole.take(front.len() as int),
        back == whole.skip(front.len() as int),
{
    assert(front =~= whole.take(front.len() as int));
    assert(back =~= whole.skip(front.len() as int));
}

/// LAW — page-boundary ordering. What a well-formed cursor has handed out is
/// exactly a prefix of the served pages' items concatenated in server order,
/// and what it still buffers is exactly the rest: within and across pages the
/// emitted order is the server's order, with nothing reordered, duplicated,
/// dropped or invented.
pub proof fn lemma_emission_order(it: AnnoIter)
    requires
        it.wf(),
    ensures
        it.consumed() + it.buffered() == it.pages().flatten(),
        it.consumed() == it.pages().flatten().take(it.consumed().len() as int),
        it.buffered() == it.pages().flatten().skip(it.consumed().len() as int),
{
    lemma_concat_parts(it.consumed(), it.buffered(), it.pages().flatten());
}

/// LAW — idempotence of iteration. Two cursors that were served the same
/// pages and have emitted equally many items have emitted identical items
/// and will hand out identical remainders: the emitted sequence is a
/// function of the served result set alone.
pub proof fn lemma_same_pages_same_sequence(a: AnnoIter, b: AnnoIter)
    requires
        a.wf(),
        b.wf(),
        a.pages() == b.pages(),
        a.consumed().len() == b.consumed().len(),
    ensures
        a.consumed() == b.consumed(),
        a.buffered() == b.buffered(),
{
    lemma_emission_order(a);
    lemma_emission_order(b);
}

/// LAW — termination on an empty page. Once a served page came back with no
/// items, the cursor is finished: nothing is buffered and no further fetch
/// is asked for, permanently (no operation un-finishes a cursor).
pub proof fn lemma_empty_page_stops(it: AnnoIter)
    requires
        it.wf(),
        it.pages().last().len() == 0,
    ensures
        it.is_finished(),
        it.buffered().len() == 0,
        !it.spec_needs_fetch(),
{
}

/// LAW — the page counter counts fetches. A well-formed cursor's current
/// page number is its start page plus the pages served after the first:
/// each fetch advanced it by exactly one.
pub proof fn lemma_page_number_counts_fetches(it: AnnoIter)
    requires
        it.wf(),
    ensures
        it.page_number() as int == it.first_page_number() + it.pages().len() - 1,
{
}

} // verus!
