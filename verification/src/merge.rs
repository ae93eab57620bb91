//! The catalog merge engine.
//!
//! On refresh, each source hands back the records it currently knows. Merging
//! reconciles them against the persisted catalog: a record whose `id` already
//! exists overwrites that entry's source-owned fields in place, leaving the
//! user-owned fields untouched; a record with an unknown `id` is appended
//! after all existing entries, in the order the source produced it.

use vstd::prelude::*;

use crate::catalog::Game;

verus! {

/// Whether some entry of `s` carries the id `id`.
pub open spec fn has_id(s: Seq<Game>, id: Seq<char>) -> bool {
    exists|k: int| 0 <= k < s.len() && s[k].id@ == id
}

/// No two entries of `s` share an id. The persisted catalog keeps this
/// invariant: ids must stay globally unique across sources.
pub open spec fn unique_ids(s: Seq<Game>) -> bool {
    forall|j: int, k: int| 0 <= j < k < s.len() ==> s[j].id@ != s[k].id@
}

/// The entry `e` after the incoming record `o` (with the same id) has been
/// applied to it: every source-owned field is replaced, while `id` and the
/// user-owned fields `kids`, `hidden`, `players` and `image_path` are kept.
pub open spec fn overwrite_source_fields(e: Game, o: Game) -> Game {
    Game {
        id: e.id,
        title: o.title,
        image_path: e.image_path,
        image_src: o.image_src,
        installed: o.installed,
        kids: e.kids,
        hidden: e.hidden,
        players: e.players,
        launch_url: o.launch_url,
        install_directory: o.install_directory,
        working_subdir_override: o.working_subdir_override,
        command: o.command,
        args: o.args,
        launcher: o.launcher,
    }
}

/// The entry `e` after a whole incoming sequence has been applied: the last
/// incoming record with a matching id wins; with no match, `e` is unchanged.
pub open spec fn merge_entry(e: Game, inc: Seq<Game>) -> Game
    decreases inc.len(),
{
    if inc.len() == 0 {
        e
    } else if inc.last().id@ == e.id@ {
        overwrite_source_fields(e, inc.last())
    } else {
        merge_entry(e, inc.drop_last())
    }
}

/// The incoming records whose id matches no existing entry, in incoming
/// order: exactly the entries the merge appends.
pub open spec fn additions(ex: Seq<Game>, inc: Seq<Game>) -> Seq<Game> {
    inc.filter(|o: Game| !has_id(ex, o.id@))
}

/// The merged catalog: every existing entry updated by its last matching
/// incoming record, followed by the genuinely new records in incoming order.
pub open spec fn merge_spec(ex: Seq<Game>, inc: Seq<Game>) -> Seq<Game> {
    Seq::new(ex.len(), |j: int| merge_entry(ex[j], inc)) + additions(ex, inc)
}

/// `merge_entry` never touches the id or a user-owned field.
proof fn lemma_merge_entry_user_fields(e: Game, inc: Seq<Game>)
    ensures
        merge_entry(e, inc).id == e.id,
        merge_entry(e, inc).kids == e.kids,
        merge_entry(e, inc).hidden == e.hidden,
        merge_entry(e, inc).players == e.players,
        merge_entry(e, inc).image_path == e.image_path,
    decreases inc.len(),
{
    if inc.len() > 0 && inc.last().id@ != e.id@ {
        lemma_merge_entry_user_fields(e, inc.drop_last());
    }
}

/// Updating an already-updated entry with a matching record is the same as
/// updating the original entry with it: the overwrite replaces every
/// source-owned field and keeps exactly what `merge_entry` kept.
proof fn lemma_overwrite_after_merge(e: Game, pre: Seq<Game>, o: Game)
    ensures
        overwrite_source_fields(merge_entry(e, pre), o) == overwrite_source_fields(e, o),
{
    lemma_merge_entry_user_fields(e, pre);
}

/// One step of `merge_entry`: extending the incoming prefix by one record
/// either overwrites (if that record matches) or changes nothing.
proof fn lemma_merge_entry_step(e: Game, inc: Seq<Game>, t: int)
    requires
        0 <= t < inc.len(),
    ensures
        merge_entry(e, inc.take(t + 1)) == if inc[t].id@ == e.id@ {
            overwrite_source_fields(e, inc[t])
        } else {
            merge_entry(e, inc.take(t))
        },
{
    let pre = inc.take(t + 1);
    assert(pre.last() == inc[t]);
    assert(pre.drop_last() =~= inc.take(t));
}

/// One step of `additions`: extending the incoming prefix by one record
/// appends it exactly when its id is new.
proof fn lemma_additions_step(ex: Seq<Game>, inc: Seq<Game>, t: int)
    requires
        0 <= t < inc.len(),
    ensures
        additions(ex, inc.take(t + 1)) == if !has_id(ex, inc[t].id@) {
            additions(ex, inc.take(t)).push(inc[t])
        } else {
            additions(ex, inc.take(t))
        },
{
    reveal(Seq::filter);
    let pre = inc.take(t + 1);
    assert(pre.last() == inc[t]);
    assert(pre.drop_last() =~= inc.take(t));
    assert(pre.len() > 0);
}

/// Exec counterpart of `overwrite_source_fields`.
fn apply_source_fields(e: Game, o: Game) -> (r: Game)
    ensures
        r == overwrite_source_fields(e, o),
{
    Game {
        id: e.id,
        title: o.title,
        image_path: e.image_path,
        image_src: o.image_src,
        installed: o.installed,
        kids: e.kids,
        hidden: e.hidden,
        players: e.players,
        launch_url: o.launch_url,
        install_directory: o.install_directory,
        working_subdir_override: o.working_subdir_override,
        command: o.command,
        args: o.args,
        launcher: o.launcher,
    }
}

/// Merges the records in `other` into the catalog `games`: a record matching
/// an existing id overwrites that entry's source-owned fields, a record with
/// a new id is appended after all existing entries, in incoming order.
pub fn merge_with(games: Vec<Game>, other: Vec<Game>) -> (merged: Vec<Game>)
    requires
        unique_ids(games@),
    ensures
        merged@ == merge_spec(games@, other@),
{
    let ghost ex = games@;
    let ghost inc = other@;
    let mut games = games;
    let mut other = other;
    let mut to_add: Vec<Game> = Vec::new();
    let ghost mut t: int = 0;
    while other.len() > 0
        invariant
            0 <= t <= inc.len(),
            other@ == inc.skip(t),
            unique_ids(ex),
            games@.len() == ex.len(),
            forall|j: int| 0 <= j < ex.len() ==> games@[j] == merge_entry(ex[j], inc.take(t)),
            to_add@ == additions(ex, inc.take(t)),
        decreases other@.len(),
    {
        proof {
            assert(inc.skip(t)[0] == inc[t]);
        }
        let orig = other.remove(0);
        proof {
            assert(orig == inc[t]);
            assert(inc.skip(t).remove(0) =~= inc.skip(t + 1));
        }
        let mut j: usize = 0;
        let mut found: bool = false;
        while j < games.len() && !found
            invariant
                0 <= j <= games@.len(),
                games@.len() == ex.len(),
                forall|k: int| 0 <= k < ex.len() ==> games@[k] == merge_entry(
                    ex[k],
                    inc.take(t),
                ),
                forall|k: int| 0 <= k < j ==> ex[k].id@ != orig.id@,
                found ==> j < games@.len() && ex[j as int].id@ == orig.id@,
            decreases games@.len() - j + if found {
                0int
            } else {
                1int
            },
        {
            proof {
                lemma_merge_entry_user_fields(ex[j as int], inc.take(t));
            }
            if games[j].id == orig.id {
                found = true;
            } else {
                j += 1;
            }
        }
        proof {
            if !found {
                assert(!has_id(ex, orig.id@));
            }
        }
        if found {
            let e = games.remove(j);
            let updated = apply_source_fields(e, orig);
            games.insert(j, updated);
            proof {
                lemma_overwrite_after_merge(ex[j as int], inc.take(t), orig);
                assert forall|k: int| 0 <= k < ex.len() implies games@[k] == merge_entry(
                    ex[k],
                    inc.take(t + 1),
                ) by {
                    lemma_merge_entry_step(ex[k], inc, t);
                }
                assert(has_id(ex, orig.id@));
                lemma_additions_step(ex, inc, t);
            }
        } else {
            to_add.push(orig);
            proof {
                assert forall|k: int| 0 <= k < ex.len() implies games@[k] == merge_entry(
                    ex[k],
                    inc.take(t + 1),
                ) by {
                    lemma_merge_entry_step(ex[k], inc, t);
                }
                lemma_additions_step(ex, inc, t);
            }
        }
        proof {
            t = t + 1;
        }
    }
    proof {
        assert(inc.take(t) =~= inc);
    }
    let mut merged = games;
    merged.append(&mut to_add);
    proof {
        assert(merged@ =~= merge_spec(ex, inc));
    }
    merged
}

/// Merge preserves user-owned fields: whatever the incoming records say, an
/// existing entry keeps its `kids` and `hidden` settings, and its id.
pub proof fn lemma_merge_preserves_user_fields(ex: Seq<Game>, inc: Seq<Game>, j: int)
    requires
        0 <= j < ex.len(),
    ensures
        merge_spec(ex, inc)[j].id == ex[j].id,
        merge_spec(ex, inc)[j].kids == ex[j].kids,
        merge_spec(ex, inc)[j].hidden == ex[j].hidden,
        merge_spec(ex, inc)[j].players == ex[j].players,
{
    lemma_merge_entry_user_fields(ex[j], inc);
}

/// Merge appends exactly the incoming records whose id matches no existing
/// entry, once each and in their incoming relative order (`Seq::filter` keeps
/// order and multiplicity), after all existing entries.
pub proof fn lemma_merge_appends_new_entries(ex: Seq<Game>, inc: Seq<Game>)
    ensures
        merge_spec(ex, inc).len() == ex.len() + additions(ex, inc).len(),
        merge_spec(ex, inc).skip(ex.len() as int) == additions(ex, inc),
        forall|k: int|
            0 <= k < additions(ex, inc).len() ==> !has_id(
                ex,
                (#[trigger] additions(ex, inc)[k]).id@,
            ),
{
    broadcast use vstd::seq_lib::group_filter_ensures;

    assert(merge_spec(ex, inc).skip(ex.len() as int) =~= additions(ex, inc));
    let pred = |o: Game| !has_id(ex, o.id@);
    assert forall|k: int| 0 <= k < additions(ex, inc).len() implies !has_id(
        ex,
        (#[trigger] additions(ex, inc)[k]).id@,
    ) by {
        assert(pred(inc.filter(pred)[k]));
    }
}

/// Merging an empty incoming sequence is a no-op: the catalog comes back
/// unchanged.
pub proof fn lemma_merge_empty_incoming(ex: Seq<Game>)
    ensures
        merge_spec(ex, Seq::<Game>::empty()) == ex,
{
    reveal(Seq::filter);
    assert(merge_spec(ex, Seq::<Game>::empty()) =~= ex);
}

} // verus!
