use vstd::prelude::*;

verus! {

/// `needle` occurs in `hay` starting at position `i`.
pub open spec fn occurs_at(hay: Seq<char>, needle: Seq<char>, i: int) -> bool {
    &&& 0 <= i
    &&& i + needle.len() <= hay.len()
    &&& hay.subrange(i, i + needle.len()) == needle
}

/// `needle` is a contiguous part of `hay` (what `str::contains` tests).
pub open spec fn has_substring(hay: Seq<char>, needle: Seq<char>) -> bool {
    exists|i: int| occurs_at(hay, needle, i)
}

/// The characters of `s`, in order.
fn chars_of(s: &str) -> (out: Vec<char>)
    ensures
        out@ == s@,
{
    let mut out: Vec<char> = Vec::new();
    for c in it: s.chars()
        invariant
            out@ == it.seq().take(it.index() as int),
            it.seq() == s@,
    {
        out.push(c);
    }
    out
}

/// Whether `needle` occurs in `hay` at position `i`.
fn matches_at(hay: &Vec<char>, needle: &Vec<char>, i: usize) -> (r: bool)
    requires
        i + needle.len() <= hay.len(),
    ensures
        r == occurs_at(hay@, needle@, i as int),
{
    let n = needle.len();
    let mut j: usize = 0;
    while j < n
        invariant
            j <= n,
            n == needle.len(),
            i + n <= hay.len(),
            forall|k: int| 0 <= k < j ==> hay@[i + k] == needle@[k],
        decreases n - j,
    {
        if hay[i + j] != needle[j] {
            assert(hay@.subrange(i as int, i + n)[j as int] != needle@[j as int]);
            return false;
        }
        j = j + 1;
    }
    assert(hay@.subrange(i as int, i + n) =~= needle@);
    true
}

/// Whether `needle` is a contiguous part of `hay`.
fn contains_chars(hay: &Vec<char>, needle: &Vec<char>) -> (r: bool)
    ensures
        r == has_substring(hay@, needle@),
{
    if needle.len() > hay.len() {
        assert forall|i: int| !occurs_at(hay@, needle@, i) by {}
        return false;
    }
    let last = hay.len() - needle.len();
    let mut i: usize = 0;
    while i < last
        invariant
            last == hay.len() - needle.len(),
            needle.len() <= hay.len(),
            i <= last,
            forall|k: int| 0 <= k < i ==> !occurs_at(hay@, needle@, k),
        decreases last - i,
    {
        if matches_at(hay, needle, i) {
            return true;
        }
        i = i + 1;
    }
    if matches_at(hay, needle, last) {
        return true;
    }
    assert forall|k: int| !occurs_at(hay@, needle@, k) by {
        if 0 <= k < i {
        }
    }
    false
}


/// The markers of the event types that the indexer stores: an event is kept
/// when its indexed type contains one of them.
pub open spec fn watched_type_markers() -> Seq<Seq<char>> {
    seq![
        "liquidity_pool::SwapEvent"@,
        "code::PublishPackage"@,
        "assets_v1::CoinCreationEvent"@,
        "assets_v1::prebook_coin"@,
    ]
}

/// An indexed type that contains one of the watched markers.
pub open spec fn is_watched_type(indexed_type: Seq<char>) -> bool {
    exists|k: int|
        0 <= k < watched_type_markers().len() && has_substring(
            indexed_type,
            #[trigger] watched_type_markers()[k],
        )
}

/// An event whose indexed type is watched.
pub open spec fn is_watched_event(event: EventModel) -> bool {
    is_watched_type(event.indexed_type@)
}

/// The watched events of `events`, in their original order.
pub open spec fn watched_events(events: Seq<EventModel>) -> Seq<EventModel> {
    events.filter(|e: EventModel| is_watched_event(e))
}

/// The event payload is carried as it came; nothing here reads it.
#[verifier::external_type_specification]
#[verifier::external_body]
pub struct ExJsonValue(serde_json::Value);

/// `serde_json::Value`'s `Clone` is derived: the copy equals the original.
pub assume_specification[ <serde_json::Value as Clone>::clone ](value: &serde_json::Value) -> (copy: serde_json::Value)
    ensures
        copy == *value,
;

/// One row of the events table.
#[derive(Debug, Clone)]
pub struct EventModel {
    pub sequence_number: i64,
    pub creation_number: i64,
    pub account_address: String,
    pub transaction_version: i64,
    pub transaction_block_height: i64,
    pub type_: String,
    pub data: serde_json::Value,
    pub event_index: i64,
    pub indexed_type: String,
}

/// The watched markers, each as its characters.
fn watched_marker_chars() -> (markers: Vec<Vec<char>>)
    ensures
        markers@.len() == watched_type_markers().len(),
        forall|k: int|
            0 <= k < markers@.len() ==> #[trigger] markers@[k]@ == watched_type_markers()[k],
{
    let mut markers: Vec<Vec<char>> = Vec::new();
    markers.push(chars_of("liquidity_pool::SwapEvent"));
    markers.push(chars_of("code::PublishPackage"));
    markers.push(chars_of("assets_v1::CoinCreationEvent"));
    markers.push(chars_of("assets_v1::prebook_coin"));
    markers
}

/// Whether `indexed_type` contains one of the markers.
fn contains_a_marker(indexed_type: &Vec<char>, markers: &Vec<Vec<char>>) -> (r: bool)
    requires
        markers@.len() == watched_type_markers().len(),
        forall|k: int|
            0 <= k < markers@.len() ==> #[trigger] markers@[k]@ == watched_type_markers()[k],
    ensures
        r == is_watched_type(indexed_type@),
{
    let mut k: usize = 0;
    while k < markers.len()
        invariant
            k <= markers@.len(),
            markers@.len() == watched_type_markers().len(),
            forall|j: int|
                0 <= j < markers@.len() ==> #[trigger] markers@[j]@ == watched_type_markers()[j],
            forall|j: int|
                0 <= j < k ==> !has_substring(indexed_type@, #[trigger] watched_type_markers()[j]),
        decreases markers@.len() - k,
    {
        if contains_chars(indexed_type, &markers[k]) {
            assert(markers@[k as int]@ == watched_type_markers()[k as int]);
            return true;
        }
        k = k + 1;
    }
    false
}

/// Whether `indexed_type` names a watched event type.
pub fn is_watched(indexed_type: &str) -> (r: bool)
    ensures
        r == is_watched_type(indexed_type@),
        r <==> {
            ||| has_substring(indexed_type@, "liquidity_pool::SwapEvent"@)
            ||| has_substring(indexed_type@, "code::PublishPackage"@)
            ||| has_substring(indexed_type@, "assets_v1::CoinCreationEvent"@)
            ||| has_substring(indexed_type@, "assets_v1::prebook_coin"@)
        },
{
    proof {
        lemma_watched_markers(indexed_type@);
    }
    let markers = watched_marker_chars();
    let chars = chars_of(indexed_type);
    contains_a_marker(&chars, &markers)
}

/// The events of a batch that go into the events table: those whose indexed
/// type contains a watched marker, in the order in which they came.
pub fn select_events_to_insert(items: Vec<EventModel>) -> (selected: Vec<EventModel>)
    ensures
        selected@ == watched_events(items@),
{
    let markers = watched_marker_chars();
    let mut selected: Vec<EventModel> = Vec::new();
    let ghost all = items@;
    for item in it: items.into_iter()
        invariant
            it.seq() == all,
            markers@.len() == watched_type_markers().len(),
            forall|k: int|
                0 <= k < markers@.len() ==> #[trigger] markers@[k]@ == watched_type_markers()[k],
            selected@ == watched_events(all.take(it.index() as int)),
    {
        let ghost i = it.index() as int;
        let chars = chars_of(item.indexed_type.as_str());
        let keep = contains_a_marker(&chars, &markers);
        proof {
            assert(all.take(i + 1) =~= all.take(i).push(all[i]));
            all.take(i).lemma_filter_push(all[i], |e: EventModel| is_watched_event(e));
        }
        if keep {
            selected.push(item);
        }
    }
    proof {
        assert(all.take(all.len() as int) =~= all);
    }
    selected
}

/// Selecting the watched events of a batch cut in two keeps what selecting them
/// from the whole batch keeps: the first part's, then the second part's.
pub proof fn lemma_selection_splits(first: Seq<EventModel>, second: Seq<EventModel>)
    ensures
        watched_events(first + second) == watched_events(first) + watched_events(second),
{
    Seq::filter_distributes_over_add(first, second, |e: EventModel| is_watched_event(e));
}

/// Storing a batch chunk by chunk, selecting in each chunk, stores the same
/// events in the same order as selecting from the whole batch, whatever the
/// chunks are.
pub proof fn lemma_selection_over_chunks(chunks: Seq<Seq<EventModel>>)
    ensures
        watched_events(chunks.flatten()) == chunks.map_values(
            |c: Seq<EventModel>| watched_events(c),
        ).flatten(),
    decreases chunks.len(),
{
    let per_chunk = chunks.map_values(|c: Seq<EventModel>| watched_events(c));
    if chunks.len() == 0 {
        reveal(Seq::filter);
        assert(per_chunk.flatten() =~= Seq::<EventModel>::empty());
    } else {
        lemma_selection_over_chunks(chunks.drop_first());
        lemma_selection_splits(chunks.first(), chunks.drop_first().flatten());
        assert(per_chunk.drop_first() =~= chunks.drop_first().map_values(
            |c: Seq<EventModel>| watched_events(c),
        ));
    }
}

/// Selecting again from a selection changes nothing.
pub proof fn lemma_selection_idempotent(events: Seq<EventModel>)
    ensures
        watched_events(watched_events(events)) == watched_events(events),
    decreases events.len(),
{
    reveal(Seq::filter);
    if events.len() > 0 {
        let rest = events.drop_last();
        lemma_selection_idempotent(rest);
        if is_watched_event(events.last()) {
            watched_events(rest).lemma_filter_push(
                events.last(),
                |e: EventModel| is_watched_event(e),
            );
        }
    }
}

/// An event is selected exactly when it is in the batch and its type is watched.
pub proof fn lemma_selection_membership(events: Seq<EventModel>, event: EventModel)
    ensures
        watched_events(events).contains(event) <==> (events.contains(event) && is_watched_event(
            event,
        )),
{
    let pred = |e: EventModel| is_watched_event(e);
    if watched_events(events).contains(event) {
        events.lemma_filter_contains_rev(pred, event);
        let j = choose|j: int| 0 <= j < watched_events(events).len() && watched_events(events)[j] == event;
        events.lemma_filter_pred(pred, j);
    }
    if events.contains(event) && is_watched_event(event) {
        let i = choose|i: int| 0 <= i < events.len() && events[i] == event;
        events.lemma_filter_contains(pred, i);
    }
}

/// A needle is a substring of a text exactly when the text is some text, then
/// the needle, then some text: the match may start anywhere, at any distance
/// from the start of the text.
pub proof fn lemma_substring_anywhere(prefix: Seq<char>, needle: Seq<char>, suffix: Seq<char>)
    ensures
        has_substring(prefix + needle + suffix, needle),
{
    let hay = prefix + needle + suffix;
    assert(hay.subrange(prefix.len() as int, (prefix.len() + needle.len()) as int) =~= needle);
    assert(occurs_at(hay, needle, prefix.len() as int));
}

/// Where a needle is a substring of a text, the text splits around it.
pub proof fn lemma_substring_splits(hay: Seq<char>, needle: Seq<char>)
    requires
        has_substring(hay, needle),
    ensures
        exists|prefix: Seq<char>, suffix: Seq<char>| hay == prefix + needle + suffix,
{
    let i = choose|i: int| occurs_at(hay, needle, i);
    let prefix = hay.subrange(0, i);
    let suffix = hay.subrange(i + needle.len(), hay.len() as int);
    assert(hay =~= prefix + needle + suffix);
}

/// The watched types are exactly those that contain one of the four markers
/// "liquidity_pool::SwapEvent", "code::PublishPackage",
/// "assets_v1::CoinCreationEvent" and "assets_v1::prebook_coin".
pub proof fn lemma_watched_markers(indexed_type: Seq<char>)
    ensures
        is_watched_type(indexed_type) <==> {
            ||| has_substring(indexed_type, "liquidity_pool::SwapEvent"@)
            ||| has_substring(indexed_type, "code::PublishPackage"@)
            ||| has_substring(indexed_type, "assets_v1::CoinCreationEvent"@)
            ||| has_substring(indexed_type, "assets_v1::prebook_coin"@)
        },
{
    let m = watched_type_markers();
    assert(m[0] == "liquidity_pool::SwapEvent"@);
    assert(m[1] == "code::PublishPackage"@);
    assert(m[2] == "assets_v1::CoinCreationEvent"@);
    assert(m[3] == "assets_v1::prebook_coin"@);
    if is_watched_type(indexed_type) {
        let k = choose|k: int| 0 <= k < m.len() && has_substring(indexed_type, #[trigger] m[k]);
        assert(k == 0 || k == 1 || k == 2 || k == 3);
    }
}

/// A type is watched wherever in it a marker stands: after any prefix (an
/// address of any length, a module path) and before any suffix (type arguments).
pub proof fn lemma_watched_anywhere(prefix: Seq<char>, suffix: Seq<char>)
    ensures
        is_watched_type(prefix + "liquidity_pool::SwapEvent"@ + suffix),
        is_watched_type(prefix + "code::PublishPackage"@ + suffix),
        is_watched_type(prefix + "assets_v1::CoinCreationEvent"@ + suffix),
        is_watched_type(prefix + "assets_v1::prebook_coin"@ + suffix),
{
    lemma_substring_anywhere(prefix, "liquidity_pool::SwapEvent"@, suffix);
    lemma_substring_anywhere(prefix, "code::PublishPackage"@, suffix);
    lemma_substring_anywhere(prefix, "assets_v1::CoinCreationEvent"@, suffix);
    lemma_substring_anywhere(prefix, "assets_v1::prebook_coin"@, suffix);
    lemma_watched_markers(prefix + "liquidity_pool::SwapEvent"@ + suffix);
    lemma_watched_markers(prefix + "code::PublishPackage"@ + suffix);
    lemma_watched_markers(prefix + "assets_v1::CoinCreationEvent"@ + suffix);
    lemma_watched_markers(prefix + "assets_v1::prebook_coin"@ + suffix);
}

} // verus!
