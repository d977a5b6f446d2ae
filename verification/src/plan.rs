//! Planning a run against the draft: which local entries are sent, whether
//! each is added or updated, and where the draft is published in between so
//! that it does not grow too old.

use crate::text::same_text;
use vstd::prelude::*;

verus! {

/// The number of changes after which the draft is published before the run
/// goes on.
pub const BATCH: usize = 40;

/// One entry of the remote configuration, seen from one local entry: its
/// key, and whether its value equals the local entry's value.
#[derive(Clone, Copy, Debug)]
pub struct RemoteEntry<'a> {
    pub key: &'a str,
    pub same_value: bool,
}

/// How a local entry stands to the remote configuration.
#[derive(Clone, Copy, Debug, PartialEq, Eq, Structural)]
pub struct EntryStatus {
    /// The remote configuration has an entry with the same key.
    pub exists: bool,
    /// The remote configuration has an entry with the same key and value.
    pub unchanged: bool,
}

/// One step of an upload. The number is the position of the local entry.
#[derive(Clone, Copy, Debug, PartialEq, Eq, Structural)]
pub enum UploadStep {
    /// Publish the draft.
    Publish,
    /// Add the entry to the draft.
    Create(usize),
    /// Update the entry in the draft.
    Update(usize),
}

/// One step of a purge. The number is the position of the remote entry.
#[derive(Clone, Copy, Debug, PartialEq, Eq, Structural)]
pub enum PurgeStep {
    /// Publish the draft.
    Publish,
    /// Delete the entry.
    Delete(usize),
}

/// Some remote entry has the key `key`.
pub open spec fn key_exists(key: Seq<char>, remote: Seq<RemoteEntry>) -> bool {
    exists|j: int| 0 <= j < remote.len() && (#[trigger] remote[j]).key@ == key
}

/// Some remote entry has the key `key` and the same value.
pub open spec fn key_unchanged(key: Seq<char>, remote: Seq<RemoteEntry>) -> bool {
    exists|j: int| 0 <= j < remote.len() && (#[trigger] remote[j]).key@ == key && remote[j].same_value
}

/// Every entry is unchanged: there is nothing to send.
pub open spec fn nothing_changed(statuses: Seq<EntryStatus>) -> bool {
    forall|i: int| 0 <= i < statuses.len() ==> (#[trigger] statuses[i]).unchanged
}

/// The step that sends the entry at `at`.
pub open spec fn send_step(statuses: Seq<EntryStatus>, at: int) -> UploadStep {
    if statuses[at].exists {
        UploadStep::Update(at as usize)
    } else {
        UploadStep::Create(at as usize)
    }
}

/// The steps for the entries from `at` on, when `count` changes have been
/// made since the draft was last published: unchanged entries are passed
/// over, the draft is published before a change whenever `BATCH` changes
/// have piled up, and once more at the end.
pub open spec fn upload_steps_from(statuses: Seq<EntryStatus>, at: int, count: int) -> Seq<UploadStep>
    decreases statuses.len() - at,
{
    if at < 0 || at >= statuses.len() {
        seq![UploadStep::Publish]
    } else if statuses[at].unchanged {
        upload_steps_from(statuses, at + 1, count)
    } else if count >= BATCH {
        seq![UploadStep::Publish, send_step(statuses, at)] + upload_steps_from(statuses, at + 1, 1)
    } else {
        seq![send_step(statuses, at)] + upload_steps_from(statuses, at + 1, count + 1)
    }
}

/// The steps of an upload, `None` where no entry has changed.
pub open spec fn upload_plan(statuses: Seq<EntryStatus>) -> Option<Seq<UploadStep>> {
    if nothing_changed(statuses) {
        None
    } else {
        Some(upload_steps_from(statuses, 0, 0))
    }
}

/// The steps that delete the entries from `at` up to `total`, when `count`
/// deletions have been made since the draft was last published: the draft
/// is published before a deletion whenever more than `BATCH` have piled up.
pub open spec fn purge_steps_from(total: int, at: int, count: int) -> Seq<PurgeStep>
    decreases total - at,
{
    if at < 0 || at >= total {
        Seq::empty()
    } else if count > BATCH {
        seq![PurgeStep::Publish, PurgeStep::Delete(at as usize)] + purge_steps_from(total, at + 1, 1)
    } else {
        seq![PurgeStep::Delete(at as usize)] + purge_steps_from(total, at + 1, count + 1)
    }
}

/// The entries that a plan sends, in the order in which it sends them.
pub open spec fn sent_entries(steps: Seq<UploadStep>) -> Seq<usize>
    decreases steps.len(),
{
    if steps.len() == 0 {
        Seq::empty()
    } else {
        match steps[0] {
            UploadStep::Publish => sent_entries(steps.skip(1)),
            UploadStep::Create(i) => seq![i] + sent_entries(steps.skip(1)),
            UploadStep::Update(i) => seq![i] + sent_entries(steps.skip(1)),
        }
    }
}

/// No more than `BATCH` entries are sent between two publications, given
/// that `count` entries were sent since the last one.
pub open spec fn batches_bounded(steps: Seq<UploadStep>, count: int) -> bool
    decreases steps.len(),
{
    if steps.len() == 0 {
        true
    } else if steps[0] is Publish {
        batches_bounded(steps.skip(1), 0)
    } else {
        count < BATCH && batches_bounded(steps.skip(1), count + 1)
    }
}

/// The positions from `at` on of the entries that have changed.
pub open spec fn changed_from(statuses: Seq<EntryStatus>, at: int) -> Seq<usize>
    decreases statuses.len() - at,
{
    if at < 0 || at >= statuses.len() {
        Seq::empty()
    } else if statuses[at].unchanged {
        changed_from(statuses, at + 1)
    } else {
        seq![at as usize] + changed_from(statuses, at + 1)
    }
}

/// The entries that a purge deletes, in the order in which it deletes them.
pub open spec fn deleted_entries(steps: Seq<PurgeStep>) -> Seq<usize>
    decreases steps.len(),
{
    if steps.len() == 0 {
        Seq::empty()
    } else {
        match steps[0] {
            PurgeStep::Publish => deleted_entries(steps.skip(1)),
            PurgeStep::Delete(i) => seq![i] + deleted_entries(steps.skip(1)),
        }
    }
}

/// The positions from `at` up to `total`, in order.
pub open spec fn positions_from(total: int, at: int) -> Seq<usize>
    decreases total - at,
{
    if at < 0 || at >= total {
        Seq::empty()
    } else {
        seq![at as usize] + positions_from(total, at + 1)
    }
}

/// How a local entry with the key `key` stands to the remote entries.
pub fn entry_status(key: &str, remote: &Vec<RemoteEntry>) -> (r: EntryStatus)
    ensures
        r.exists == key_exists(key@, remote@),
        r.unchanged == key_unchanged(key@, remote@),
{
    let mut exists = false;
    let mut unchanged = false;
    let mut j: usize = 0;
    while j < remote.len()
        invariant
            j <= remote.len(),
            exists == key_exists(key@, remote@.take(j as int)),
            unchanged == key_unchanged(key@, remote@.take(j as int)),
        decreases remote.len() - j,
    {
        let ghost before = remote@.take(j as int);
        let ghost after = remote@.take(j + 1);
        let hit = same_text(remote[j].key, key);
        let same = remote[j].same_value;
        proof {
            assert(after[j as int] == remote@[j as int]);
            assert forall|k: int| 0 <= k < j implies #[trigger] after[k] == before[k] by {}
        }
        if hit {
            exists = true;
            if same {
                unchanged = true;
            }
        }
        j += 1;
    }
    proof {
        assert(remote@.take(remote.len() as int) =~= remote@);
    }
    EntryStatus { exists, unchanged }
}

/// Plans an upload of the local entries whose standing is `statuses`.
/// `None` where there is nothing to send.
pub fn plan_upload(statuses: &Vec<EntryStatus>) -> (r: Option<Vec<UploadStep>>)
    ensures
        r is Some <==> upload_plan(statuses@) is Some,
        r matches Some(steps) ==> Some(steps@) == upload_plan(statuses@),
{
    let n = statuses.len();
    let mut steps: Vec<UploadStep> = Vec::new();
    let mut count: usize = 0;
    let mut any = false;
    let mut at: usize = 0;
    while at < n
        invariant
            at <= n,
            n == statuses@.len(),
            count <= BATCH,
            any == !nothing_changed(statuses@.take(at as int)),
            steps@ + upload_steps_from(statuses@, at as int, count as int) == upload_steps_from(
                statuses@,
                0,
                0,
            ),
        decreases n - at,
    {
        let ghost before = statuses@.take(at as int);
        let ghost after = statuses@.take(at + 1);
        let ghost done = steps@;
        let ghost count_before = count as int;
        let status = statuses[at];
        proof {
            assert(after[at as int] == statuses@[at as int]);
            assert forall|k: int| 0 <= k < at implies #[trigger] after[k] == before[k] by {}
        }
        if !status.unchanged {
            any = true;
            if count >= BATCH {
                steps.push(UploadStep::Publish);
                count = 0;
            }
            if status.exists {
                steps.push(UploadStep::Update(at));
            } else {
                steps.push(UploadStep::Create(at));
            }
            count += 1;
        }
        proof {
            assert(steps@ + upload_steps_from(statuses@, at + 1, count as int) =~= done
                + upload_steps_from(statuses@, at as int, count_before));
        }
        at += 1;
    }
    proof {
        assert(statuses@.take(n as int) =~= statuses@);
        assert(steps@.push(UploadStep::Publish) =~= steps@ + upload_steps_from(
            statuses@,
            n as int,
            count as int,
        ));
    }
    if !any {
        return None;
    }
    steps.push(UploadStep::Publish);
    Some(steps)
}

/// Plans the deletion of `total` remote entries, first to last.
pub fn plan_purge(total: usize) -> (steps: Vec<PurgeStep>)
    ensures
        steps@ == purge_steps_from(total as int, 0, 0),
{
    let mut steps: Vec<PurgeStep> = Vec::new();
    let mut count: usize = 0;
    let mut at: usize = 0;
    while at < total
        invariant
            at <= total,
            count <= BATCH + 1,
            steps@ + purge_steps_from(total as int, at as int, count as int) == purge_steps_from(
                total as int,
                0,
                0,
            ),
        decreases total - at,
    {
        let ghost done = steps@;
        let ghost count_before = count as int;
        if count > BATCH {
            steps.push(PurgeStep::Publish);
            count = 0;
        }
        count += 1;
        steps.push(PurgeStep::Delete(at));
        proof {
            assert(steps@ + purge_steps_from(total as int, at + 1, count as int) =~= done
                + purge_steps_from(total as int, at as int, count_before));
        }
        at += 1;
    }
    steps
}

/// A plan sends the entries that have changed, each once, in their order,
/// and no others.
pub proof fn lemma_plan_sends_changed(statuses: Seq<EntryStatus>, at: int, count: int)
    requires
        0 <= at <= statuses.len() <= usize::MAX,
    ensures
        sent_entries(upload_steps_from(statuses, at, count)) == changed_from(statuses, at),
    decreases statuses.len() - at,
{
    reveal_with_fuel(sent_entries, 3);
    let steps = upload_steps_from(statuses, at, count);
    if at < statuses.len() {
        if statuses[at].unchanged {
            lemma_plan_sends_changed(statuses, at + 1, count);
        } else if count >= BATCH {
            lemma_plan_sends_changed(statuses, at + 1, 1);
            assert(steps.skip(1).skip(1) =~= upload_steps_from(statuses, at + 1, 1));
        } else {
            lemma_plan_sends_changed(statuses, at + 1, count + 1);
            assert(steps.skip(1) =~= upload_steps_from(statuses, at + 1, count + 1));
        }
    }
}

/// A purge deletes every entry once, first to last.
pub proof fn lemma_purge_deletes_all(total: int, at: int, count: int)
    requires
        0 <= at <= total <= usize::MAX,
    ensures
        deleted_entries(purge_steps_from(total, at, count)) == positions_from(total, at),
    decreases total - at,
{
    reveal_with_fuel(deleted_entries, 3);
    let steps = purge_steps_from(total, at, count);
    if at < total {
        if count > BATCH {
            lemma_purge_deletes_all(total, at + 1, 1);
            assert(steps.skip(1).skip(1) =~= purge_steps_from(total, at + 1, 1));
        } else {
            lemma_purge_deletes_all(total, at + 1, count + 1);
            assert(steps.skip(1) =~= purge_steps_from(total, at + 1, count + 1));
        }
    }
}

/// Each entry that a plan sends is added if the remote configuration has no
/// entry of its key, and updated if it has one.
pub proof fn lemma_plan_adds_or_updates(statuses: Seq<EntryStatus>, at: int, count: int, k: int)
    requires
        0 <= at <= statuses.len() <= usize::MAX,
        0 <= k < upload_steps_from(statuses, at, count).len(),
    ensures
        match upload_steps_from(statuses, at, count)[k] {
            UploadStep::Publish => true,
            UploadStep::Create(i) => at <= i < statuses.len() && !statuses[i as int].exists
                && !statuses[i as int].unchanged,
            UploadStep::Update(i) => at <= i < statuses.len() && statuses[i as int].exists
                && !statuses[i as int].unchanged,
        },
    decreases statuses.len() - at,
{
    if at < statuses.len() {
        if statuses[at].unchanged {
            lemma_plan_adds_or_updates(statuses, at + 1, count, k);
        } else if count >= BATCH {
            if k >= 2 {
                lemma_plan_adds_or_updates(statuses, at + 1, 1, k - 2);
            }
        } else if k >= 1 {
            lemma_plan_adds_or_updates(statuses, at + 1, count + 1, k - 1);
        }
    }
}

/// A plan never sends more than `BATCH` entries without publishing the
/// draft, and it ends by publishing it.
pub proof fn lemma_plan_publishes_in_batches(statuses: Seq<EntryStatus>, at: int, count: int)
    requires
        0 <= at <= statuses.len(),
        0 <= count <= BATCH,
    ensures
        batches_bounded(upload_steps_from(statuses, at, count), count),
        upload_steps_from(statuses, at, count).len() > 0,
        upload_steps_from(statuses, at, count).last() == UploadStep::Publish,
    decreases statuses.len() - at,
{
    reveal_with_fuel(batches_bounded, 3);
    let steps = upload_steps_from(statuses, at, count);
    if at < statuses.len() {
        if statuses[at].unchanged {
            lemma_plan_publishes_in_batches(statuses, at + 1, count);
        } else if count >= BATCH {
            lemma_plan_publishes_in_batches(statuses, at + 1, 1);
            assert(steps.skip(1).skip(1) =~= upload_steps_from(statuses, at + 1, 1));
        } else {
            lemma_plan_publishes_in_batches(statuses, at + 1, count + 1);
            assert(steps.skip(1) =~= upload_steps_from(statuses, at + 1, count + 1));
        }
    }
}

} // verus!
