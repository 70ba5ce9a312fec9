//! Transcription history: a list of entries, newest first, kept within a
//! fixed size. Reading and writing the history file (and, on Windows,
//! protecting it with the user's credentials) stands outside this module;
//! what the list becomes after an addition or a deletion stands here.
use vstd::prelude::*;

verus! {

/// The name of the history file inside the application directory.
pub const HISTORY_FILE: &'static str = "history.dat";

/// The most entries the history keeps; the oldest go first.
pub const MAX_ENTRIES: usize = 1000;

/// One transcription.
#[derive(Debug)]
pub struct HistoryEntry {
    pub id: u64,
    pub timestamp_ms: u64,
    pub text: String,
    pub engine: String,
}

impl Clone for HistoryEntry {
    fn clone(&self) -> (r: Self)
        ensures
            r == *self,
    {
        HistoryEntry {
            id: self.id,
            timestamp_ms: self.timestamp_ms,
            text: self.text.clone(),
            engine: self.engine.clone(),
        }
    }
}

/// The id that a new entry gets at time `now` (milliseconds): the current
/// time, but always above the id of the newest entry, so that ids keep
/// growing even when two recordings land in the same millisecond.
pub open spec fn next_id(entries: Seq<HistoryEntry>, now: u64) -> int {
    let after_newest: int = if entries.len() > 0 {
        entries[0].id + 1
    } else {
        0
    };
    if after_newest >= now {
        after_newest
    } else {
        now as int
    }
}

/// Newest first: ids strictly decrease along the list.
pub open spec fn ids_descending(entries: Seq<HistoryEntry>) -> bool {
    forall|i: int, j: int| 0 <= i < j < entries.len() ==> entries[i].id > entries[j].id
}

/// `after` is `before` with a new entry for `text` from `engine`, made at
/// time `now`, put in front, and the list cut to `MAX_ENTRIES`.
pub open spec fn added(
    before: Seq<HistoryEntry>,
    after: Seq<HistoryEntry>,
    text: Seq<char>,
    engine: Seq<char>,
    now: u64,
) -> bool {
    &&& after.len() == if before.len() + 1 <= MAX_ENTRIES {
        before.len() + 1
    } else {
        MAX_ENTRIES as nat
    }
    &&& after[0].id == next_id(before, now)
    &&& after[0].timestamp_ms == now
    &&& after[0].text@ == text
    &&& after[0].engine@ == engine
    &&& forall|i: int| 1 <= i < after.len() ==> after[i] == before[i - 1]
}

/// The entries of `entries` whose id is not `id`, in their order.
pub open spec fn without_id(entries: Seq<HistoryEntry>, id: u64) -> Seq<HistoryEntry>
    decreases entries.len(),
{
    if entries.len() == 0 {
        entries
    } else {
        let rest = without_id(entries.drop_last(), id);
        if entries.last().id != id {
            rest.push(entries.last())
        } else {
            rest
        }
    }
}

/// The id for a new entry at time `now`.
pub fn new_entry_id(entries: &Vec<HistoryEntry>, now: u64) -> (r: u64)
    requires
        entries.len() > 0 ==> entries@[0].id < u64::MAX,
    ensures
        r == next_id(entries@, now),
{
    let after_newest: u64 = if entries.len() > 0 {
        entries[0].id + 1
    } else {
        0
    };
    if after_newest >= now {
        after_newest
    } else {
        now
    }
}

/// Records a transcription made at time `now` (milliseconds since the Unix
/// epoch) in front of the history and drops the oldest entries beyond
/// `MAX_ENTRIES`.
pub fn add(entries: &mut Vec<HistoryEntry>, text: &str, engine: &str, now: u64)
    requires
        old(entries).len() > 0 ==> old(entries)@[0].id < u64::MAX,
    ensures
        added(old(entries)@, final(entries)@, text@, engine@, now),
{
    broadcast use vstd::string::group_string_axioms;

    let id = new_entry_id(entries, now);
    let entry = HistoryEntry {
        id,
        timestamp_ms: now,
        text: text.to_string(),
        engine: engine.to_string(),
    };
    entries.insert(0, entry);
    entries.truncate(MAX_ENTRIES);
}

/// Removes every entry with the given id; the others keep their order.
pub fn delete(entries: &mut Vec<HistoryEntry>, id: u64)
    ensures
        final(entries)@ == without_id(old(entries)@, id),
{
    let mut kept: Vec<HistoryEntry> = Vec::new();
    let n = entries.len();
    let mut i: usize = 0;
    while i < n
        invariant
            i <= n,
            n == entries.len(),
            entries@ == old(entries)@,
            kept@ == without_id(entries@.take(i as int), id),
        decreases n - i,
    {
        assert(entries@.take(i + 1).drop_last() == entries@.take(i as int));
        if entries[i].id != id {
            kept.push(entries[i].clone());
        }
        i += 1;
    }
    assert(entries@.take(n as int) == entries@);
    *entries = kept;
}

/// Every entry left after a deletion was in the list before, and entries
/// keep their relative order.
proof fn lemma_without_id_from(entries: Seq<HistoryEntry>, id: u64)
    ensures
        forall|k: int|
            0 <= k < without_id(entries, id).len() ==> exists|j: int|
                0 <= j < entries.len() && entries[j] == #[trigger] without_id(entries, id)[k],
        without_id(entries, id).len() <= entries.len(),
    decreases entries.len(),
{
    if entries.len() > 0 {
        let prev = entries.drop_last();
        lemma_without_id_from(prev, id);
        let r = without_id(entries, id);
        assert forall|k: int| 0 <= k < r.len() implies exists|j: int|
            0 <= j < entries.len() && entries[j] == #[trigger] r[k] by {
            if k < without_id(prev, id).len() {
                let j = choose|j: int|
                    0 <= j < prev.len() && prev[j] == #[trigger] without_id(prev, id)[k];
                assert(entries[j] == prev[j]);
            } else {
                assert(entries[entries.len() - 1] == r[k]);
            }
        }
    }
}

/// Deleting keeps the history newest first.
pub proof fn law_delete_keeps_order(entries: Seq<HistoryEntry>, id: u64)
    requires
        ids_descending(entries),
    ensures
        ids_descending(without_id(entries, id)),
    decreases entries.len(),
{
    if entries.len() > 0 {
        let prev = entries.drop_last();
        assert(ids_descending(prev));
        law_delete_keeps_order(prev, id);
        lemma_without_id_from(prev, id);
        let p = without_id(prev, id);
        let r = without_id(entries, id);
        assert forall|i: int, j: int| 0 <= i < j < r.len() implies r[i].id > r[j].id by {
            if j < p.len() {
                assert(r[i] == p[i] && r[j] == p[j]);
            } else {
                let k = choose|k: int| 0 <= k < prev.len() && prev[k] == #[trigger] p[i];
                assert(r[i] == p[i]);
                assert(entries[k] == prev[k]);
                assert(r[j] == entries[entries.len() - 1]);
            }
        }
    }
}

/// Adding keeps the history newest first.
pub proof fn law_add_keeps_order(
    before: Seq<HistoryEntry>,
    after: Seq<HistoryEntry>,
    text: Seq<char>,
    engine: Seq<char>,
    now: u64,
)
    requires
        ids_descending(before),
        added(before, after, text, engine, now),
    ensures
        ids_descending(after),
{
    assert forall|i: int, j: int| 0 <= i < j < after.len() implies after[i].id > after[j].id by {
        assert(after[j] == before[j - 1]);
        if i > 0 {
            assert(after[i] == before[i - 1]);
        } else if j > 1 {
            assert(before[0].id > before[j - 1].id);
        }
    }
}

/// Deleting an id that no entry has changes nothing.
proof fn lemma_without_absent(entries: Seq<HistoryEntry>, id: u64)
    requires
        forall|k: int| 0 <= k < entries.len() ==> entries[k].id != id,
    ensures
        without_id(entries, id) == entries,
    decreases entries.len(),
{
    if entries.len() > 0 {
        lemma_without_absent(entries.drop_last(), id);
        assert(entries.drop_last().push(entries.last()) == entries);
    }
}

/// Deleting from a list with an entry put in front of it.
proof fn lemma_without_front(e: HistoryEntry, entries: Seq<HistoryEntry>, id: u64)
    requires
        e.id == id,
    ensures
        without_id(seq![e] + entries, id) == without_id(entries, id),
    decreases entries.len(),
{
    if entries.len() == 0 {
        assert(seq![e] + entries =~= seq![e]);
        assert(seq![e].drop_last() =~= Seq::<HistoryEntry>::empty());
        assert(without_id(Seq::<HistoryEntry>::empty(), id) == Seq::<HistoryEntry>::empty());
        assert(without_id(seq![e], id) == without_id(seq![e].drop_last(), id));
    } else {
        lemma_without_front(e, entries.drop_last(), id);
        assert((seq![e] + entries).drop_last() =~= seq![e] + entries.drop_last());
        assert((seq![e] + entries).last() == entries.last());
    }
}

/// Deleting the entry that an addition just made undoes the addition, as
/// long as the history was newest first and not yet full.
pub proof fn law_delete_undoes_add(
    before: Seq<HistoryEntry>,
    after: Seq<HistoryEntry>,
    text: Seq<char>,
    engine: Seq<char>,
    now: u64,
)
    requires
        ids_descending(before),
        before.len() < MAX_ENTRIES,
        added(before, after, text, engine, now),
    ensures
        without_id(after, after[0].id) == before,
{
    let id = after[0].id;
    assert(after == seq![after[0]] + before);
    assert forall|k: int| 0 <= k < before.len() implies before[k].id != id by {
        if k > 0 {
            assert(before[0].id > before[k].id);
        }
    }
    lemma_without_front(after[0], before, id);
    lemma_without_absent(before, id);
}

/// The history file's bytes for the JSON bytes `plain`, on platforms
/// without a per-user data protection service: the JSON as it is.
pub open spec fn sealed(plain: Seq<u8>) -> Seq<u8> {
    plain
}

/// The JSON bytes held by the history file bytes `raw`, on the same platforms.
pub open spec fn unsealed(raw: Seq<u8>) -> Seq<u8> {
    raw
}

/// The history file's bytes for the JSON bytes `plain`.
pub fn encrypt(plain: &[u8]) -> (r: Result<Vec<u8>, String>)
    ensures
        r matches Ok(v) && v@ == sealed(plain@),
{
    let mut out: Vec<u8> = Vec::new();
    let mut i: usize = 0;
    while i < plain.len()
        invariant
            i <= plain.len(),
            out@ == plain@.take(i as int),
        decreases plain.len() - i,
    {
        out.push(plain[i]);
        i += 1;
    }
    assert(plain@.take(plain.len() as int) == plain@);
    Ok(out)
}

/// The JSON bytes held by the history file bytes `raw`.
pub fn decrypt(raw: &[u8]) -> (r: Result<Vec<u8>, String>)
    ensures
        r matches Ok(v) && v@ == unsealed(raw@),
{
    encrypt(raw)
}

/// Decrypting what was encrypted gives the same bytes back.
pub proof fn law_decrypt_undoes_encrypt(plain: Seq<u8>)
    ensures
        unsealed(sealed(plain)) == plain,
{
}

} // verus!
