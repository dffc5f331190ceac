//! The laws of the store, stated over its model: what holds of the store
//! once the actions that the operations ask for are performed.

use crate::handoff::{handoff_of_text, text_of_handoff, HandoffView};
use crate::ident::short_text;
use crate::order::{lemma_ranked, lemma_ranked_order_free, ranked};
use crate::sync::layout::ignore_body;
use crate::sync::model::{StoreActionView, StoreModel};
use crate::sync::{
    being_readable, by_content, by_creation, clear_action, handoff_file_name, holders, holding,
    holds, init_actions, is_handoff_name, is_readable, lists, named_holds, readable,
    received_count, send_actions, tally, PendingFile,
};
use vstd::prelude::*;

verus! {

/// Initializing again changes nothing: once the regions exist and the
/// ignore marker is written, the actions of another initialization leave
/// the store as it is.
pub proof fn lemma_init_idempotent(store: StoreModel)
    ensures
        ({
            let once = store.after_all(init_actions(store.ignore_marker is Some));
            let twice = once.after_all(init_actions(once.ignore_marker is Some));
            &&& once.regions
            &&& once.ignore_marker is Some
            &&& twice == once
            &&& once.pending == store.pending
            &&& once.archive == store.archive
            &&& once.wip == store.wip
            &&& once.state == store.state
        }),
{
    reveal_with_fuel(StoreModel::after_all, 3);
    let first = init_actions(store.ignore_marker is Some);
    let once = store.after_all(first);
    if store.ignore_marker is Some {
        assert(first.drop_first() =~= Seq::empty());
    } else {
        assert(first.drop_first() =~= seq![
            StoreActionView::WriteIgnoreMarker { content: ignore_body() },
        ]);
        assert(first.drop_first().drop_first() =~= Seq::empty());
    }
    let second = init_actions(once.ignore_marker is Some);
    assert(second.drop_first() =~= Seq::empty());
}

/// Clearing the slot never leaves anything in it, and clearing twice is
/// clearing once: after the first clearing the slot is empty, the second
/// finds it empty and does nothing. Clearing an empty slot changes nothing.
pub proof fn lemma_clear_wip_idempotent(store: StoreModel)
    ensures
        ({
            let once = store.after_opt(clear_action(store.wip is Some));
            let twice = once.after_opt(clear_action(once.wip is Some));
            &&& once.wip is None
            &&& twice == once
            &&& store.wip is None ==> once == store
            &&& once.pending == store.pending
            &&& once.archive == store.archive
            &&& once.state == store.state
        }),
{
}

/// Staging replaces what the slot holds, whatever that was: after a save
/// the slot holds the document saved last.
pub proof fn lemma_save_wip_overwrites(store: StoreModel, first: Seq<char>, second: Seq<char>)
    ensures
        store.after(StoreActionView::WriteWip { content: first }).after(
            StoreActionView::WriteWip { content: second },
        ).wip == Some(second),
{
}

/// Finalizing: after the actions of a send and those of clearing the slot,
/// the slot is empty and the pending region holds the document under the
/// handoff's file name, once, beside what it held under other names. The
/// archive and the state entries are as before.
pub proof fn lemma_finalize(
    store: StoreModel,
    name: Seq<char>,
    document: Seq<char>,
    commits: bool,
    message: Seq<char>,
)
    ensures
        ({
            let sent = store.after_all(send_actions(name, document, commits, message));
            let done = sent.after_opt(clear_action(sent.wip is Some));
            &&& done.wip is None
            &&& done.pending == store.pending.insert(name, document)
            &&& done.pending.contains_key(name)
            &&& done.pending[name] == document
            &&& done.archive == store.archive
            &&& done.state == store.state
            &&& done.commits == if commits {
                store.commits.push(message)
            } else {
                store.commits
            }
        }),
{
    reveal_with_fuel(StoreModel::after_all, 3);
    let actions = send_actions(name, document, commits, message);
    if commits {
        assert(actions.drop_first() =~= seq![StoreActionView::Commit { message }]);
        assert(actions.drop_first().drop_first() =~= Seq::empty());
    } else {
        assert(actions.drop_first() =~= Seq::empty());
    }
}

/// Archiving: after the action that archives a pending file, the file is
/// no longer pending, the archive holds it under the same name with the
/// same content, and every other pending file is where and what it was.
pub proof fn lemma_archive_moves(store: StoreModel, name: Seq<char>)
    requires
        store.pending.contains_key(name),
    ensures
        ({
            let done = store.after(StoreActionView::ArchivePending { name });
            &&& !done.pending.contains_key(name)
            &&& done.archive.contains_key(name)
            &&& done.archive[name] == store.pending[name]
            &&& forall|other: Seq<char>|
                other != name ==> (done.pending.contains_key(other)
                    <==> store.pending.contains_key(other))
            &&& forall|other: Seq<char>|
                other != name && store.pending.contains_key(other) ==> done.pending[other]
                    == store.pending[other]
            &&& done.wip == store.wip
            &&& done.state == store.state
        }),
{
}

/// Archiving is final: archiving the same name again changes nothing.
pub proof fn lemma_archive_once(store: StoreModel, name: Seq<char>)
    ensures
        ({
            let once = store.after(StoreActionView::ArchivePending { name });
            once.after(StoreActionView::ArchivePending { name }) == once
        }),
{
}

/// A state entry reads back as written: after the action that writes a
/// key, a read of that key finds the content written, and a read of any
/// other key finds what it found before. In an empty store every key is
/// absent.
pub proof fn lemma_state_reads_back(
    store: StoreModel,
    key: Seq<char>,
    content: Seq<char>,
    other: Seq<char>,
)
    requires
        other != key,
    ensures
        StoreModel::empty().state_entry(key) is None,
        store.after(StoreActionView::WriteState { key, content }).state_entry(key) == Some(content),
        store.after(StoreActionView::WriteState { key, content }).state_entry(other)
            == store.state_entry(other),
{
}

/// A file passed over in a listing changes nothing: with a file that is
/// not named as a handoff, or holds none, the readable handoffs are those
/// of the listing without it.
pub proof fn lemma_debris_is_skipped(files: Seq<PendingFile>, debris: PendingFile)
    requires
        !is_readable(debris),
    ensures
        readable(files.push(debris)) == readable(files),
{
    assert(files.push(debris).drop_last() =~= files);
}

/// A handoff file is read: its handoff comes behind the readable handoffs
/// of the listing before it.
pub proof fn lemma_handoff_is_read(files: Seq<PendingFile>, file: PendingFile)
    requires
        is_readable(file),
    ensures
        readable(files.push(file)) == readable(files).push(handoff_of_text(file.content@)->0),
{
    assert(files.push(file).drop_last() =~= files);
}

/// Receiving is a function of the listing, and the order of the listing
/// does not matter where creation times tell the handoffs apart: two
/// listings whose readable handoffs are the same, as often, are received
/// alike, provided that handoffs created at the same instant are equal.
pub proof fn lemma_receive_order_free(a: Seq<PendingFile>, b: Seq<PendingFile>)
    requires
        readable(a).to_multiset() == readable(b).to_multiset(),
        forall|i: int, j: int|
            0 <= i < readable(a).len() && 0 <= j < readable(a).len() && readable(
                a,
            )[i].created_at.ticks() == readable(a)[j].created_at.ticks() ==> readable(a)[i]
                == readable(a)[j],
    ensures
        ranked(readable(a), by_creation()) == ranked(readable(b), by_creation()),
{
    lemma_ranked_order_free(readable(a), readable(b), by_creation());
}

/// The name under which a handoff is sent is the name of a handoff file.
pub proof fn lemma_sent_name_is_handoff_name(stamp: Seq<char>, id: u128)
    ensures
        is_handoff_name(handoff_file_name(stamp, id)),
{
    reveal_strlit(".json");
    reveal_strlit("_");
    let name = handoff_file_name(stamp, id);
    assert(short_text(id).len() == 8);
    assert(name.len() == stamp.len() + 14);
    assert(name.subrange(name.len() - 5, name.len() as int) =~= ".json"@);
}

/// What is listed is received: a file of the listing that is read as a
/// handoff has its handoff among those received.
pub proof fn lemma_listed_is_received(files: Seq<PendingFile>, i: int)
    requires
        0 <= i < files.len(),
        is_readable(files[i]),
    ensures
        ranked(readable(files), by_creation()).contains(handoff_of_text(files[i].content@)->0),
    decreases files.len(),
{
    broadcast use vstd::seq_lib::group_to_multiset_ensures;

    let h = handoff_of_text(files[i].content@)->0;
    lemma_readable_contains(files, i);
    lemma_ranked(readable(files), by_creation());
    readable(files).to_multiset_ensures();
    ranked(readable(files), by_creation()).to_multiset_ensures();
    assert(readable(files).to_multiset().count(h) > 0);
}

/// A file of the listing that is read as a handoff has its handoff among
/// the readable.
proof fn lemma_readable_contains(files: Seq<PendingFile>, i: int)
    requires
        0 <= i < files.len(),
        is_readable(files[i]),
    ensures
        readable(files).contains(handoff_of_text(files[i].content@)->0),
    decreases files.len(),
{
    let h = handoff_of_text(files[i].content@)->0;
    let rest = files.drop_last();
    if i == files.len() - 1 {
        let r = readable(files);
        assert(r[r.len() - 1] == h);
    } else {
        assert(rest[i] == files[i]);
        lemma_readable_contains(rest, i);
        let k = choose|k: int| 0 <= k < readable(rest).len() && readable(rest)[k] == h;
        assert(readable(files)[k] == h);
    }
}

/// A handoff is received as often as files of the listing hold it.
pub proof fn lemma_received_as_often_as_held(files: Seq<PendingFile>, h: HandoffView)
    ensures
        ranked(readable(files), by_creation()).to_multiset().count(h) == holders(files, h),
{
    lemma_ranked(readable(files), by_creation());
    lemma_readable_count(files, h);
}

/// A handoff is among the readable as often as files of the listing hold
/// it.
proof fn lemma_readable_count(files: Seq<PendingFile>, h: HandoffView)
    ensures
        readable(files).to_multiset().count(h) == holders(files, h),
    decreases files.len(),
{
    broadcast use vstd::seq_lib::group_to_multiset_ensures;

    if files.len() == 0 {
        assert(readable(files).to_multiset() =~= vstd::multiset::Multiset::empty());
    } else {
        let rest = files.drop_last();
        lemma_readable_count(rest, h);
        if is_readable(files.last()) {
            let x = handoff_of_text(files.last().content@)->0;
            assert(readable(files) == readable(rest).push(x));
            assert(readable(rest).push(x).to_multiset() =~= readable(rest).to_multiset().insert(
                x,
            ));
        }
    }
}

/// Where one file of the listing holds a handoff and no other does, one
/// file holds it.
pub proof fn lemma_one_holder(files: Seq<PendingFile>, i: int, h: HandoffView)
    requires
        0 <= i < files.len(),
        holds(files[i], h),
        forall|j: int| 0 <= j < files.len() && j != i ==> !holds(#[trigger] files[j], h),
    ensures
        holders(files, h) == 1,
    decreases files.len(),
{
    let rest = files.drop_last();
    assert forall|j: int| 0 <= j < rest.len() && j != i implies !holds(#[trigger] rest[j], h) by {
        assert(rest[j] == files[j]);
    }
    if i == files.len() - 1 {
        lemma_no_holder(rest, h);
    } else {
        assert(rest[i] == files[i]);
        lemma_one_holder(rest, i, h);
        assert(!holds(files[files.len() - 1], h));
    }
}

/// Where no file of the listing holds a handoff, none holds it.
proof fn lemma_no_holder(files: Seq<PendingFile>, h: HandoffView)
    requires
        forall|j: int| 0 <= j < files.len() ==> !holds(#[trigger] files[j], h),
    ensures
        holders(files, h) == 0,
    decreases files.len(),
{
    if files.len() > 0 {
        let rest = files.drop_last();
        assert forall|j: int| 0 <= j < rest.len() implies !holds(#[trigger] rest[j], h) by {
            assert(rest[j] == files[j]);
        }
        lemma_no_holder(rest, h);
        assert(!holds(files[files.len() - 1], h));
    }
}

/// Finalizing, as the receiver sees it: once a handoff is sent and the
/// slot cleared, the slot is empty, and any listing of the pending region
/// has the handoff that the JSON written is read as received exactly once,
/// provided that no other pending file holds it. That handoff is `g`: it
/// is the handoff sent wherever what is written reads back.
pub proof fn lemma_finalized_is_received_once(
    store: StoreModel,
    name: Seq<char>,
    h: HandoffView,
    g: HandoffView,
    commits: bool,
    message: Seq<char>,
    listing: Seq<PendingFile>,
)
    requires
        is_handoff_name(name),
        handoff_of_text(text_of_handoff(h)) == Some(g),
        forall|other: Seq<char>|
            other != name && store.pending.contains_key(other) ==> handoff_of_text(
                #[trigger] store.pending[other],
            ) != Some(g),
        ({
            let sent = store.after_all(send_actions(name, text_of_handoff(h), commits, message));
            let done = sent.after_opt(clear_action(sent.wip is Some));
            lists(listing, done.pending)
        }),
    ensures
        ({
            let sent = store.after_all(send_actions(name, text_of_handoff(h), commits, message));
            let done = sent.after_opt(clear_action(sent.wip is Some));
            &&& done.wip is None
            &&& received_count(listing, g) == 1
        }),
{
    lemma_finalize(store, name, text_of_handoff(h), commits, message);
    let sent = store.after_all(send_actions(name, text_of_handoff(h), commits, message));
    let done = sent.after_opt(clear_action(sent.wip is Some));
    assert(done.pending.contains_key(name));
    let i = choose|i: int| 0 <= i < listing.len() && #[trigger] listing[i].name@ == name;
    assert(done.pending[listing[i].name@] == listing[i].content@);
    assert(holds(listing[i], g));
    assert forall|j: int| 0 <= j < listing.len() && j != i implies !holds(
        #[trigger] listing[j],
        g,
    ) by {
        let other = listing[j].name@;
        if j < i {
            assert(listing[j].name@ != listing[i].name@);
        } else {
            assert(listing[i].name@ != listing[j].name@);
        }
        assert(done.pending.contains_key(other));
        assert(done.pending[other] == listing[j].content@);
        assert(store.pending.contains_key(other));
        assert(store.pending[other] == done.pending[other]);
    }
    lemma_one_holder(listing, i, g);
    lemma_received_as_often_as_held(listing, g);
}

/// Taking a file out of a listing takes it out of the tally.
proof fn lemma_tally_remove(files: Seq<PendingFile>, j: int, p: spec_fn(PendingFile) -> bool)
    requires
        0 <= j < files.len(),
    ensures
        tally(files, p) == tally(files.remove(j), p) + if p(files[j]) {
            1nat
        } else {
            0nat
        },
    decreases files.len(),
{
    if j == files.len() - 1 {
        assert(files.remove(j) =~= files.drop_last());
    } else {
        let rest = files.drop_last();
        lemma_tally_remove(rest, j, p);
        assert(files.remove(j).drop_last() =~= rest.remove(j));
        assert(files.remove(j).last() == files.last());
        assert(rest[j] == files[j]);
    }
}

/// A listing without one of its files shows the region without that
/// file's name.
proof fn lemma_lists_remove(
    listing: Seq<PendingFile>,
    region: Map<Seq<char>, Seq<char>>,
    j: int,
)
    requires
        lists(listing, region),
        0 <= j < listing.len(),
    ensures
        lists(listing.remove(j), region.remove(listing[j].name@)),
{
    let less = listing.remove(j);
    let name = listing[j].name@;
    let rest = region.remove(name);
    assert forall|i: int| 0 <= i < less.len() implies rest.contains_key(
        #[trigger] less[i].name@,
    ) && rest[less[i].name@] == less[i].content@ by {
        let i0 = if i < j {
            i
        } else {
            i + 1
        };
        assert(less[i] == listing[i0]);
        assert(region.contains_key(listing[i0].name@));
        if i0 < j {
            assert(listing[i0].name@ != listing[j].name@);
        } else {
            assert(listing[j].name@ != listing[i0].name@);
        }
    }
    assert forall|other: Seq<char>| rest.contains_key(other) implies exists|i: int|
        0 <= i < less.len() && #[trigger] less[i].name@ == other by {
        assert(region.contains_key(other));
        let i0 = choose|i: int| 0 <= i < listing.len() && #[trigger] listing[i].name@ == other;
        let i = if i0 < j {
            i0
        } else {
            i0 - 1
        };
        assert(less[i] == listing[i0]);
    }
    assert forall|a: int, b: int| 0 <= a < b < less.len() implies less[a].name@
        != less[b].name@ by {
        let a0 = if a < j {
            a
        } else {
            a + 1
        };
        let b0 = if b < j {
            b
        } else {
            b + 1
        };
        assert(less[a] == listing[a0] && less[b] == listing[b0]);
    }
}

/// What a listing tallies is for the region to say, not for the order of
/// the listing: two listings of one region tally alike, whatever is
/// tallied of name and content.
pub proof fn lemma_tally_of_region(
    a: Seq<PendingFile>,
    b: Seq<PendingFile>,
    region: Map<Seq<char>, Seq<char>>,
    p: spec_fn(PendingFile) -> bool,
)
    requires
        lists(a, region),
        lists(b, region),
        by_content(p),
    ensures
        tally(a, p) == tally(b, p),
    decreases a.len(),
{
    if a.len() == 0 {
        if b.len() > 0 {
            assert(region.contains_key(b[0].name@));
            let i = choose|i: int| 0 <= i < a.len() && #[trigger] a[i].name@ == b[0].name@;
        }
    } else {
        let last = a.last();
        assert(region.contains_key(a[a.len() - 1].name@));
        let j = choose|j: int| 0 <= j < b.len() && #[trigger] b[j].name@ == last.name@;
        lemma_lists_remove(a, region, a.len() - 1);
        lemma_lists_remove(b, region, j);
        assert(a.remove(a.len() - 1) =~= a.drop_last());
        lemma_tally_of_region(a.drop_last(), b.remove(j), region.remove(last.name@), p);
        lemma_tally_remove(b, j, p);
        assert(region[b[j].name@] == b[j].content@);
        assert(region[a[a.len() - 1].name@] == a[a.len() - 1].content@);
        assert(p(last) == p(b[j]));
    }
}

/// As many handoffs are read from a listing as it has readable files.
proof fn lemma_readable_tallied(files: Seq<PendingFile>)
    ensures
        readable(files).len() == tally(files, being_readable()),
    decreases files.len(),
{
    if files.len() > 0 {
        lemma_readable_tallied(files.drop_last());
    }
}

/// Archiving, as the receiver sees it. `before` lists the pending region
/// before a pending file is archived, `after` lists it afterwards. Then
/// the handoff that the file held is received once less than before, so
/// not at all if no other file held it; every other handoff is received as
/// often as before; and where the file was read as a handoff, one handoff
/// less is received.
pub proof fn lemma_archived_is_not_received(
    store: StoreModel,
    name: Seq<char>,
    before: Seq<PendingFile>,
    after: Seq<PendingFile>,
    h: HandoffView,
)
    requires
        store.pending.contains_key(name),
        lists(before, store.pending),
        lists(after, store.after(StoreActionView::ArchivePending { name }).pending),
    ensures
        ({
            let content = store.pending[name];
            let received_before = ranked(readable(before), by_creation());
            let received_after = ranked(readable(after), by_creation());
            &&& named_holds(name, content, h) ==> received_count(after, h) + 1 == received_count(
                before,
                h,
            )
            &&& named_holds(name, content, h) && received_count(before, h) == 1
                ==> !received_after.contains(h)
            &&& !named_holds(name, content, h) ==> received_count(after, h) == received_count(
                before,
                h,
            )
            &&& is_handoff_name(name) && handoff_of_text(content) is Some ==> received_after.len()
                + 1 == received_before.len()
            &&& !(is_handoff_name(name) && handoff_of_text(content) is Some)
                ==> received_after.len() == received_before.len()
        }),
{
    broadcast use vstd::seq_lib::group_to_multiset_ensures;

    let content = store.pending[name];
    let less = store.pending.remove(name);
    assert(store.after(StoreActionView::ArchivePending { name }).pending == less);
    let j = choose|j: int| 0 <= j < before.len() && #[trigger] before[j].name@ == name;
    assert(store.pending[before[j].name@] == before[j].content@);
    lemma_lists_remove(before, store.pending, j);

    lemma_tally_of_region(before.remove(j), after, less, holding(h));
    lemma_tally_remove(before, j, holding(h));
    lemma_received_as_often_as_held(before, h);
    lemma_received_as_often_as_held(after, h);
    assert(holds(before[j], h) == named_holds(name, content, h));

    lemma_tally_of_region(before.remove(j), after, less, being_readable());
    lemma_tally_remove(before, j, being_readable());
    lemma_readable_tallied(before);
    lemma_readable_tallied(after);
    lemma_ranked(readable(before), by_creation());
    lemma_ranked(readable(after), by_creation());
    assert(is_readable(before[j]) == (is_handoff_name(name) && handoff_of_text(content) is Some));

    let received_after = ranked(readable(after), by_creation());
    received_after.to_multiset_ensures();
}

} // verus!
