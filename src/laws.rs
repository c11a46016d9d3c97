use vstd::prelude::*;
use crate::clock::LocalDateTime;
use crate::dashboard::{Message, StateView, dispatched, initial_state, step, edited};
use crate::state::{SavedState, SettingsView};
use crate::weather::{FetchError, WeatherDocument};

verus! {

/// Runs messages on a loaded dashboard, in order: the state reached and the
/// settings of each save started, in order.
pub open spec fn run(s: StateView, msgs: Seq<Message>) -> (StateView, Seq<SettingsView>)
    decreases msgs.len(),
{
    if msgs.len() == 0 {
        (s, Seq::empty())
    } else {
        let (p, saves) = run(s, msgs.drop_last());
        let (t, c) = step(p, msgs.last());
        (
            t,
            match c.save {
                Some(v) => saves.push(v),
                None => saves,
            },
        )
    }
}

/// The message that reports a successful save.
pub open spec fn save_done() -> Message {
    Message::SaveCompleted(Ok(()))
}

/// Reports the running save as completed, at most `n` times, while a save is
/// running: the state reached and the settings of each save started.
pub open spec fn drain(s: StateView, n: nat) -> (StateView, Seq<SettingsView>)
    decreases n,
{
    if n == 0 || !s.saving {
        (s, Seq::empty())
    } else {
        let (t, c) = step(s, save_done());
        let (u, saves) = drain(t, (n - 1) as nat);
        (
            u,
            match c.save {
                Some(v) => seq![v] + saves,
                None => saves,
            },
        )
    }
}

/// Whether every message edits the settings form.
pub open spec fn all_edits(msgs: Seq<Message>) -> bool {
    forall|i: int| 0 <= i < msgs.len() ==> (#[trigger] msgs[i]) is SettingsEdited
}

/// The settings after a sequence of edits.
pub open spec fn after_edits(s: SettingsView, msgs: Seq<Message>) -> SettingsView
    decreases msgs.len(),
{
    if msgs.len() == 0 {
        s
    } else {
        let p = after_edits(s, msgs.drop_last());
        match msgs.last() {
            Message::SettingsEdited(f, v) => edited(p, f, v@),
            _ => p,
        }
    }
}

/// At most one save is ever in flight. Let `in_flight` count the saves
/// started and not yet completed, with `saving` set exactly when one is. If
/// a completion only ever reports a running save, then after any message the
/// count is still at most one and `saving` still says whether a save runs.
pub proof fn lemma_one_save_in_flight(s: StateView, in_flight: nat, m: Message)
    requires
        in_flight <= 1,
        s.saving <==> in_flight == 1,
        m is SaveCompleted ==> in_flight == 1,
    ensures
        ({
            let (t, c) = step(s, m);
            let after = (if m is SaveCompleted {
                in_flight - 1
            } else {
                in_flight as int
            }) + (if c.save is Some {
                1int
            } else {
                0int
            });
            after <= 1 && (t.saving <==> after == 1)
        }),
{
}

proof fn lemma_edits_keep_state(s: StateView, msgs: Seq<Message>)
    requires
        all_edits(msgs),
    ensures
        run(s, msgs).0.settings == after_edits(s.settings, msgs),
        msgs.len() > 0 ==> run(s, msgs).0.saving,
        s.saving ==> run(s, msgs).1.len() == 0,
    decreases msgs.len(),
{
    if msgs.len() > 0 {
        let q = msgs.drop_last();
        assert(all_edits(q)) by {
            assert forall|i: int| 0 <= i < q.len() implies (#[trigger] q[i]) is SettingsEdited by {
                assert(q[i] == msgs[i]);
            }
        }
        lemma_edits_keep_state(s, q);
        assert(msgs[msgs.len() - 1] is SettingsEdited);
    }
}

/// Edits coalesce into one trailing save: after any nonempty sequence of
/// edits, reporting the running saves as completed until none runs leaves
/// the dashboard idle, and the last save started holds the settings as the
/// last edit left them.
pub proof fn lemma_last_save_holds_last_edit(s: StateView, edits: Seq<Message>)
    requires
        edits.len() > 0,
        all_edits(edits),
    ensures
        ({
            let (t, started) = run(s, edits);
            let (u, trailing) = drain(t, 2);
            let saves = started + trailing;
            &&& !u.saving
            &&& !u.dirty
            &&& saves.len() > 0
            &&& saves.last() == after_edits(s.settings, edits)
            &&& u.settings == after_edits(s.settings, edits)
        }),
{
    lemma_edits_keep_state(s, edits);
    let (t, started) = run(s, edits);
    let (t1, c1) = step(t, save_done());
    let (t2, c2) = step(t1, save_done());
    assert(drain(t2, 0).1 == Seq::<SettingsView>::empty());
    if !t.dirty {
        let p = run(s, edits.drop_last()).0;
        assert(step(p, edits.last()).1.save == Some(t.settings));
        assert(!t1.saving);
        assert(drain(t1, 1).1 == Seq::<SettingsView>::empty());
        assert(drain(t, 2).1 == Seq::<SettingsView>::empty());
        assert(started + drain(t, 2).1 =~= started);
    } else {
        assert(drain(t1, 1).1 =~= Seq::<SettingsView>::empty());
        assert(drain(t, 2).1 =~= seq![t.settings]);
    }
}

/// Edits made while a save runs start no save of their own, and once that
/// save completes they start at most one more, however many they were.
pub proof fn lemma_edits_during_save_coalesce(s: StateView, edits: Seq<Message>, n: nat)
    requires
        s.saving,
        all_edits(edits),
    ensures
        run(s, edits).1.len() == 0,
        drain(run(s, edits).0, n).1.len() <= 1,
{
    lemma_edits_keep_state(s, edits);
    let t = run(s, edits).0;
    assert(t.saving);
    if n >= 1 {
        let (t1, c1) = step(t, save_done());
        let m = (n - 1) as nat;
        if m >= 1 && t1.saving {
            let (t2, c2) = step(t1, save_done());
            assert(!t2.saving);
            assert(drain(t2, (m - 1) as nat).1.len() == 0);
            assert(drain(t1, m).1.len() == 0);
        } else {
            assert(drain(t1, m).1.len() == 0);
        }
        assert(drain(t, n).1.len() <= 1);
    }
}

/// A tick counts as a possible settings change: on an idle dashboard it
/// starts a save of the unchanged settings, and during a save it leaves them
/// marked dirty for the next one.
pub proof fn lemma_tick_marks_dirty(s: StateView, now: LocalDateTime)
    ensures
        ({
            let (t, c) = step(s, Message::Tick(now));
            &&& t.settings == s.settings
            &&& !s.saving ==> c.save == Some(s.settings) && t.saving && !t.dirty
            &&& s.saving ==> c.save is None && t.saving && t.dirty
        }),
{
}

/// The settings a save carries, once stored and loaded back, are the
/// settings the dashboard starts from.
pub proof fn lemma_saved_settings_reload(s: StateView, m: Message, stored: SavedState)
    requires
        step(s, m).1.save == Some(stored@),
    ensures
        dispatched(None, Message::Loaded(Ok(stored))).0 == Some(initial_state(step(s, m).0.settings)),
{
}

/// A refused key and an unreachable service leave different documents on
/// the weather page: the first is shown as an invalid key, whatever the
/// state before.
pub proof fn lemma_unauthorized_is_distinct(s: StateView)
    ensures
        step(s, Message::WeatherFetched(Err(FetchError::Unauthorized))).0.weather
            == WeatherDocument::InvalidKey,
        step(s, Message::WeatherFetched(Err(FetchError::NetworkFailure))).0.weather
            == WeatherDocument::Unavailable,
        step(s, Message::WeatherFetched(Err(FetchError::Unauthorized))).0.weather != step(
            s,
            Message::WeatherFetched(Err(FetchError::NetworkFailure)),
        ).0.weather,
{
}

} // verus!
