//! What holds of the service and the tray app across calls.
use vstd::prelude::*;

use crate::model::{alert_id_ok, visibility, VisibilityChange};
use crate::notification::Notification;
use crate::origin::opt_view;
use crate::server::{
    audible_question, audio_choice, audio_target, await_kind, decide_audio, distinct_sessions,
    done_kind, first_audible_question, is_first_audible, is_first_audible_question,
    is_first_silenceable, notify_post, session_slot, silence_slot, silenced, without_id,
    without_slot, NotificationRequest, ServerState,
};
use crate::focus::Target;
use crate::origin::{origin_fault, OriginView};
use crate::platform::{planned, PlanView, ScriptKind};
use crate::server::{has_id, SoundConfig};
use crate::text::{
    hex_digit, hex_digits, leading_ws, lemma_trailing_ws_not_all,
    lemma_utf8_len_encode, trailing_ws, trim_view, utf8_len,
};

verus! {

/// Every digit of a hexadecimal rendering is `0`–`9` or `a`–`f`.
proof fn lemma_hex_digits(v: nat, n: nat)
    ensures
        hex_digits(v, n).len() == n,
        forall|i: int|
            0 <= i < n ==> ('0' <= #[trigger] hex_digits(v, n)[i] <= '9' || 'a' <= hex_digits(
                v,
                n,
            )[i] <= 'f'),
    decreases n,
{
    reveal_strlit("0123456789abcdef");
    if n > 0 {
        lemma_hex_digits(v / 16, (n - 1) as nat);
        let d = v % 16;
        assert('0' <= hex_digit(d) <= '9' || 'a' <= hex_digit(d) <= 'f');
        let h = hex_digits(v, n);
        assert(h == hex_digits(v / 16, (n - 1) as nat).push(hex_digit(d)));
        assert forall|i: int| 0 <= i < n implies ('0' <= #[trigger] h[i] <= '9' || 'a' <= h[i]
            <= 'f') by {
            if i < n - 1 {
                assert(h[i] == hex_digits(v / 16, (n - 1) as nat)[i]);
            }
        }
    }
}

/// An alert id is 32 lower-case hexadecimal digits, so the tray app's check on
/// the ids it dismisses accepts every id the service gives out.
pub proof fn law_alert_ids_pass_dismissal_check(v: u128)
    ensures
        hex_digits(v as nat, 32).len() == 32,
        forall|i: int|
            0 <= i < 32 ==> ('0' <= #[trigger] hex_digits(v as nat, 32)[i] <= '9' || 'a'
                <= hex_digits(v as nat, 32)[i] <= 'f'),
        alert_id_ok(hex_digits(v as nat, 32)),
{
    lemma_hex_digits(v as nat, 32);
}

/// Where a question still sounds, a first one does.
proof fn lemma_first_audible_question_exists(s: Seq<Notification>, i: int)
    requires
        0 <= i < s.len(),
        audible_question(s[i]),
    ensures
        exists|k: int| is_first_audible_question(s, k),
    decreases i,
{
    if forall|j: int| 0 <= j < i ==> !#[trigger] audible_question(s[j]) {
        assert(is_first_audible_question(s, i));
    } else {
        let j = choose|j: int| 0 <= j < i && #[trigger] audible_question(s[j]);
        lemma_first_audible_question_exists(s, j);
    }
}

/// Where an alert still sounds, a first one does.
proof fn lemma_first_audible_exists(s: Seq<Notification>, i: int)
    requires
        0 <= i < s.len(),
        !s[i].silenced,
    ensures
        exists|k: int| is_first_audible(s, k),
    decreases i,
{
    if forall|j: int| 0 <= j < i ==> #[trigger] s[j].silenced {
        assert(is_first_audible(s, i));
    } else {
        let j = choose|j: int| 0 <= j < i && !#[trigger] s[j].silenced;
        lemma_first_audible_exists(s, j);
    }
}

/// Questions take priority: while a question still sounds, the loop plays for
/// the most recent such question; otherwise for the most recent alert that
/// still sounds, and with none, nothing plays.
pub proof fn law_questions_take_priority(s: Seq<Notification>)
    ensures
        (exists|i: int| 0 <= i < s.len() && #[trigger] audible_question(s[i])) ==> (audio_choice(
            s,
        ) matches Some(k) && is_first_audible_question(s, k)),
        !(exists|i: int| 0 <= i < s.len() && #[trigger] audible_question(s[i])) ==> (match audio_choice(s) {
            Some(k) => is_first_audible(s, k),
            None => forall|i: int| 0 <= i < s.len() ==> #[trigger] s[i].silenced,
        }),
{
    if exists|i: int| 0 <= i < s.len() && #[trigger] audible_question(s[i]) {
        let i = choose|i: int| 0 <= i < s.len() && #[trigger] audible_question(s[i]);
        lemma_first_audible_question_exists(s, i);
    } else {
        assert(first_audible_question(s) is None);
        if exists|i: int| 0 <= i < s.len() && !#[trigger] s[i].silenced {
            let i = choose|i: int| 0 <= i < s.len() && !#[trigger] s[i].silenced;
            lemma_first_audible_exists(s, i);
        }
    }
}

/// Clearing is by concatenation: the alerts of `a + b` without `id` are those of
/// `a` followed by those of `b`.
proof fn lemma_without_id_append(a: Seq<Notification>, b: Seq<Notification>, id: Seq<char>)
    ensures
        without_id(a + b, id) == without_id(a, id) + without_id(b, id),
    decreases b.len(),
{
    if b.len() == 0 {
        assert(a + b =~= a);
        assert(without_id(a, id) + without_id(b, id) =~= without_id(a, id));
    } else {
        assert((a + b).drop_last() =~= a + b.drop_last());
        lemma_without_id_append(a, b.drop_last(), id);
        assert((a + b).last() == b.last());
        if b.last().id@ != id {
            assert(without_id(a, id) + without_id(b.drop_last(), id).push(b.last())
                =~= (without_id(a, id) + without_id(b.drop_last(), id)).push(b.last()));
        }
    }
}

/// What is left after clearing `id`: exactly the alerts of `s` with another id.
pub proof fn law_dismiss_clears_only_that_alert(s: Seq<Notification>, id: Seq<char>)
    ensures
        forall|n: Notification|
            #[trigger] without_id(s, id).contains(n) <==> (s.contains(n) && n.id@ != id),
    decreases s.len(),
{
    if s.len() > 0 {
        law_dismiss_clears_only_that_alert(s.drop_last(), id);
        let rest = without_id(s.drop_last(), id);
        assert forall|n: Notification|
            #[trigger] without_id(s, id).contains(n) <==> (s.contains(n) && n.id@ != id) by {
            if s.contains(n) && n.id@ != id {
                let k = choose|k: int| 0 <= k < s.len() && s[k] == n;
                if k < s.len() - 1 {
                    assert(s.drop_last()[k] == n);
                    assert(rest.contains(n));
                    let m = choose|m: int| 0 <= m < rest.len() && rest[m] == n;
                    if s.last().id@ != id {
                        assert(rest.push(s.last())[m] == n);
                    }
                } else {
                    assert(s.last() == n);
                    assert(rest.push(s.last())[rest.len() as int] == n);
                }
            }
            if without_id(s, id).contains(n) {
                let m = choose|m: int|
                    0 <= m < without_id(s, id).len() && without_id(s, id)[m] == n;
                if m < rest.len() {
                    assert(rest[m] == n);
                    assert(rest.contains(n));
                    let k = choose|k: int| 0 <= k < s.drop_last().len() && s.drop_last()[k] == n;
                    assert(s[k] == n);
                } else {
                    assert(n == s.last());
                    assert(s[s.len() - 1] == n);
                }
            }
        }
    } else {
        assert forall|n: Notification|
            #[trigger] without_id(s, id).contains(n) <==> (s.contains(n) && n.id@ != id) by {
            assert(without_id(s, id).len() == 0);
        }
    }
}

/// Around an alert that stays: the alerts before it, it, the alerts after it.
proof fn lemma_without_id_split(s: Seq<Notification>, id: Seq<char>, i: int)
    requires
        0 <= i < s.len(),
        s[i].id@ != id,
    ensures
        without_id(s, id) == without_id(s.take(i), id) + seq![s[i]] + without_id(
            s.skip(i + 1),
            id,
        ),
{
    assert(s =~= s.take(i) + (seq![s[i]] + s.skip(i + 1)));
    lemma_without_id_append(s.take(i), seq![s[i]] + s.skip(i + 1), id);
    lemma_without_id_append(seq![s[i]], s.skip(i + 1), id);
    assert(seq![s[i]].drop_last() =~= Seq::<Notification>::empty());
    assert(without_id(Seq::<Notification>::empty(), id) =~= Seq::<Notification>::empty());
    assert(seq![s[i]].last() == s[i]);
    assert(without_id(seq![s[i]], id) =~= seq![s[i]]);
    assert(without_id(s.take(i), id) + (seq![s[i]] + without_id(s.skip(i + 1), id))
        =~= without_id(s.take(i), id) + seq![s[i]] + without_id(s.skip(i + 1), id));
}

/// Every alert left after clearing was there before.
proof fn lemma_without_id_from(s: Seq<Notification>, id: Seq<char>, j: int)
    requires
        0 <= j < without_id(s, id).len(),
    ensures
        exists|k: int| 0 <= k < s.len() && s[k] == without_id(s, id)[j],
{
    law_dismiss_clears_only_that_alert(s, id);
    assert(without_id(s, id).contains(without_id(s, id)[j]));
}

proof fn lemma_first_audible_question_unique(s: Seq<Notification>, a: int, b: int)
    requires
        is_first_audible_question(s, a),
        is_first_audible_question(s, b),
    ensures
        a == b,
{
    if a < b {
        assert(!audible_question(s[a]));
    } else if b < a {
        assert(!audible_question(s[b]));
    }
}

proof fn lemma_first_audible_unique(s: Seq<Notification>, a: int, b: int)
    requires
        is_first_audible(s, a),
        is_first_audible(s, b),
    ensures
        a == b,
{
    if a < b {
        assert(s[a].silenced);
    } else if b < a {
        assert(s[b].silenced);
    }
}

/// Clearing another alert never restarts or stops the loop that plays: unless
/// the loop's alert is the one cleared, it keeps the loop.
pub proof fn law_dismissing_another_alert_keeps_the_loop(s: Seq<Notification>, id: Seq<char>)
    requires
        audio_target(s) != Some(id),
    ensures
        audio_target(without_id(s, id)) == audio_target(s),
{
    let w = without_id(s, id);
    law_questions_take_priority(s);
    law_questions_take_priority(w);
    if exists|i: int| 0 <= i < s.len() && #[trigger] audible_question(s[i]) {
        let i = audio_choice(s)->0;
        lemma_without_id_split(s, id, i);
        let p = without_id(s.take(i), id);
        assert(w[p.len() as int] == s[i]);
        assert forall|j: int| 0 <= j < p.len() implies !#[trigger] audible_question(w[j]) by {
            assert(w[j] == p[j]);
            lemma_without_id_from(s.take(i), id, j);
            let k = choose|k: int| 0 <= k < s.take(i).len() && s.take(i)[k] == p[j];
            assert(s[k] == p[j]);
        }
        assert(is_first_audible_question(w, p.len() as int));
        let k = audio_choice(w)->0;
        lemma_first_audible_question_unique(w, k, p.len() as int);
    } else {
        assert forall|j: int| 0 <= j < w.len() implies !#[trigger] audible_question(w[j]) by {
            lemma_without_id_from(s, id, j);
            let k = choose|k: int| 0 <= k < s.len() && s[k] == w[j];
            assert(!audible_question(s[k]));
        }
        if exists|i: int| 0 <= i < s.len() && !#[trigger] s[i].silenced {
            let i = audio_choice(s)->0;
            lemma_without_id_split(s, id, i);
            let p = without_id(s.take(i), id);
            assert(w[p.len() as int] == s[i]);
            assert forall|j: int| 0 <= j < p.len() implies #[trigger] w[j].silenced by {
                assert(w[j] == p[j]);
                lemma_without_id_from(s.take(i), id, j);
                let k = choose|k: int| 0 <= k < s.take(i).len() && s.take(i)[k] == p[j];
                assert(s[k] == p[j]);
            }
            assert(is_first_audible(w, p.len() as int));
            let k = audio_choice(w)->0;
            lemma_first_audible_unique(w, k, p.len() as int);
        } else {
            assert forall|j: int| 0 <= j < w.len() implies #[trigger] w[j].silenced by {
                lemma_without_id_from(s, id, j);
                let k = choose|k: int| 0 <= k < s.len() && s[k] == w[j];
                assert(s[k].silenced);
            }
            assert(!exists|j: int| 0 <= j < w.len() && !#[trigger] w[j].silenced);
        }
    }
}

/// Silencing another alert never restarts or stops the loop that plays.
pub proof fn law_silencing_another_alert_keeps_the_loop(s: Seq<Notification>, id: Seq<char>)
    requires
        silence_slot(s, id) is Some,
        audio_target(s) != Some(id),
    ensures
        audio_target(s.update(silence_slot(s, id)->0, silenced(s[silence_slot(s, id)->0])))
            == audio_target(s),
{
    let k = silence_slot(s, id)->0;
    let u = s.update(k, silenced(s[k]));
    assert(exists|x: int| is_first_silenceable(s, id, x));
    assert(is_first_silenceable(s, id, k));
    law_questions_take_priority(s);
    law_questions_take_priority(u);
    assert(u[k].silenced);
    if exists|i: int| 0 <= i < s.len() && #[trigger] audible_question(s[i]) {
        let i = audio_choice(s)->0;
        assert(i != k);
        assert(u[i] == s[i]);
        assert forall|j: int| 0 <= j < i implies !#[trigger] audible_question(u[j]) by {
            if j != k {
                assert(u[j] == s[j]);
            }
        }
        assert(is_first_audible_question(u, i));
        let m = audio_choice(u)->0;
        lemma_first_audible_question_unique(u, m, i);
    } else {
        assert forall|j: int| 0 <= j < u.len() implies !#[trigger] audible_question(u[j]) by {
            if j != k {
                assert(u[j] == s[j]);
            }
        }
        assert(!s[k].silenced);
        let i = audio_choice(s)->0;
        assert(is_first_audible(s, i));
        assert(i != k);
        assert(i < k);
        assert(u[i] == s[i]);
        assert forall|j: int| 0 <= j < i implies #[trigger] u[j].silenced by {
            assert(u[j] == s[j]);
        }
        assert(is_first_audible(u, i));
        let m = audio_choice(u)->0;
        lemma_first_audible_unique(u, m, i);
    }
}

/// After clearing another alert, the player is told nothing.
pub proof fn law_dismissing_another_alert_sends_nothing(
    s: Seq<Notification>,
    id: Seq<char>,
    config: crate::server::SoundConfig,
)
    requires
        audio_target(s) != Some(id),
    ensures
        decide_audio(audio_target(s), without_id(s, id), config) is Keep,
{
    law_dismissing_another_alert_keeps_the_loop(s, id);
}

/// After silencing another alert, the player is told nothing.
pub proof fn law_silencing_another_alert_sends_nothing(
    s: Seq<Notification>,
    id: Seq<char>,
    config: crate::server::SoundConfig,
)
    requires
        silence_slot(s, id) is Some,
        audio_target(s) != Some(id),
    ensures
        decide_audio(
            audio_target(s),
            s.update(silence_slot(s, id)->0, silenced(s[silence_slot(s, id)->0])),
            config,
        ) is Keep,
{
    law_silencing_another_alert_keeps_the_loop(s, id);
}

/// Where some alert belongs to session `sid`, a first one does.
proof fn lemma_session_slot_exists(s: Seq<Notification>, sid: Option<Seq<char>>, i: int)
    requires
        0 <= i < s.len(),
        opt_view(s[i].session_id) == sid,
    ensures
        session_slot(s, sid) is Some,
    decreases i,
{
    if forall|j: int| 0 <= j < i ==> opt_view(#[trigger] s[j].session_id) != sid {
        assert(crate::server::is_first_session_match(s, sid, i));
    } else {
        let j = choose|j: int| 0 <= j < i && opt_view(#[trigger] s[j].session_id) == sid;
        lemma_session_slot_exists(s, sid, j);
    }
}

/// One alert per session: accepting a request keeps the sessions of the active
/// alerts distinct.
pub proof fn law_accepting_keeps_one_alert_per_session(
    old: ServerState,
    new: ServerState,
    req: NotificationRequest,
    done: bool,
    id: u128,
    n: Notification,
    a: crate::server::AudioAction,
)
    requires
        distinct_sessions(old.notifications.active@),
        notify_post(old, new, req, done, id, n, a),
    ensures
        distinct_sessions(new.notifications.active@),
{
    let s = old.notifications.active@;
    let sid = opt_view(req.session_id);
    let slot = session_slot(s, sid);
    let kept = without_slot(s, slot);
    let t = new.notifications.active@;
    assert(t == seq![n] + kept);
    // Where each kept alert came from.
    assert forall|m: int| 0 <= m < kept.len() implies exists|x: int|
        0 <= x < s.len() && s[x] == #[trigger] kept[m] && opt_view(s[x].session_id) != sid && (
        slot matches Some(k) ==> (x == if m < k {
            m
        } else {
            m + 1
        })) && (slot is None ==> x == m) by {
        match slot {
            Some(k) => {
                assert(exists|y: int| crate::server::is_first_session_match(s, sid, y));
                assert(crate::server::is_first_session_match(s, sid, k));
                s.remove_ensures(k);
                let x = if m < k {
                    m
                } else {
                    m + 1
                };
                assert(s[x] == kept[m]);
                assert(x != k);
                if x < k {
                    assert(opt_view(s[x].session_id) != opt_view(s[k].session_id));
                } else {
                    assert(opt_view(s[k].session_id) != opt_view(s[x].session_id));
                }
            },
            None => {
                if opt_view(s[m].session_id) == sid {
                    lemma_session_slot_exists(s, sid, m);
                }
            },
        }
    }
    assert forall|i: int, j: int|
        0 <= i < j < t.len() implies opt_view(#[trigger] t[i].session_id) != opt_view(
        #[trigger] t[j].session_id,
    ) by {
        assert(t[j] == kept[j - 1]);
        let y = choose|x: int|
            0 <= x < s.len() && s[x] == #[trigger] kept[j - 1] && opt_view(s[x].session_id)
                != sid && (slot matches Some(k) ==> (x == if j - 1 < k {
                j - 1
            } else {
                j
            })) && (slot is None ==> x == j - 1);
        if i == 0 {
            assert(t[0] == n);
        } else {
            assert(t[i] == kept[i - 1]);
            let x = choose|x: int|
                0 <= x < s.len() && s[x] == #[trigger] kept[i - 1] && opt_view(s[x].session_id)
                    != sid && (slot matches Some(k) ==> (x == if i - 1 < k {
                    i - 1
                } else {
                    i
                })) && (slot is None ==> x == i - 1);
            assert(x < y);
        }
    }
}

/// One alert per session: clearing keeps the sessions of the active alerts distinct.
pub proof fn law_dismissing_keeps_one_alert_per_session(s: Seq<Notification>, id: Seq<char>)
    requires
        distinct_sessions(s),
    ensures
        distinct_sessions(without_id(s, id)),
    decreases s.len(),
{
    if s.len() > 0 {
        let d = s.drop_last();
        assert(distinct_sessions(d)) by {
            assert forall|i: int, j: int| 0 <= i < j < d.len() implies opt_view(
                #[trigger] d[i].session_id,
            ) != opt_view(#[trigger] d[j].session_id) by {
                assert(d[i] == s[i] && d[j] == s[j]);
            }
        }
        law_dismissing_keeps_one_alert_per_session(d, id);
        let w = without_id(d, id);
        if s.last().id@ != id {
            let t = w.push(s.last());
            assert forall|i: int, j: int| 0 <= i < j < t.len() implies opt_view(
                #[trigger] t[i].session_id,
            ) != opt_view(#[trigger] t[j].session_id) by {
                if j == t.len() - 1 {
                    assert(t[i] == w[i]);
                    lemma_without_id_from(d, id, i);
                    let k = choose|k: int| 0 <= k < d.len() && d[k] == w[i];
                    assert(s[k] == d[k]);
                    assert(t[j] == s[s.len() - 1]);
                } else {
                    assert(t[i] == w[i] && t[j] == w[j]);
                }
            }
        }
    }
}

/// One alert per session: silencing changes no session.
pub proof fn law_silencing_keeps_one_alert_per_session(s: Seq<Notification>, k: int)
    requires
        distinct_sessions(s),
        0 <= k < s.len(),
    ensures
        distinct_sessions(s.update(k, silenced(s[k]))),
{
    let u = s.update(k, silenced(s[k]));
    assert forall|i: int, j: int| 0 <= i < j < u.len() implies opt_view(
        #[trigger] u[i].session_id,
    ) != opt_view(#[trigger] u[j].session_id) by {
        assert(u[i].session_id == s[i].session_id);
        assert(u[j].session_id == s[j].session_id);
    }
}

/// What a request raised is what polling the current alert gives back at once.
pub proof fn law_accepted_alert_is_current(
    old: ServerState,
    new: ServerState,
    req: NotificationRequest,
    done: bool,
    id: u128,
    n: Notification,
    a: crate::server::AudioAction,
)
    requires
        notify_post(old, new, req, done, id, n, a),
    ensures
        new.notifications.active@.len() > 0,
        new.notifications.active@[0] == n,
{
}

/// A newer completion from another session does not interrupt a pending
/// question: the player is told nothing.
pub proof fn law_completion_keeps_pending_question(
    old: ServerState,
    new: ServerState,
    req: NotificationRequest,
    id: u128,
    n: Notification,
    a: crate::server::AudioAction,
)
    requires
        old.notifications.audio_consistent(),
        notify_post(old, new, req, true, id, n, a),
        audio_choice(old.notifications.active@) matches Some(i) && audible_question(
            old.notifications.active@[i],
        ) && opt_view(old.notifications.active@[i].session_id) != opt_view(req.session_id),
    ensures
        a.decision() is Keep,
{
    reveal_strlit("all_tasks_finished");
    reveal_strlit("awaiting_user_input");
    assert(done_kind() != await_kind()) by {
        assert(done_kind().len() != await_kind().len());
    }
    let s = old.notifications.active@;
    let sid = opt_view(req.session_id);
    let slot = session_slot(s, sid);
    let kept = without_slot(s, slot);
    let t = new.notifications.active@;
    let i = audio_choice(s)->0;
    law_questions_take_priority(s);
    assert(is_first_audible_question(s, i));
    // Where the question stands among the kept alerts.
    let j = match slot {
        Some(k) => if k < i {
            i - 1
        } else {
            i
        },
        None => i,
    };
    match slot {
        Some(k) => {
            assert(exists|y: int| crate::server::is_first_session_match(s, sid, y));
            assert(crate::server::is_first_session_match(s, sid, k));
            assert(k != i);
            s.remove_ensures(k);
            assert(kept[j] == s[i]);
            assert forall|m: int| 0 <= m < j implies !#[trigger] audible_question(kept[m]) by {
                if m < k {
                    assert(kept[m] == s[m]);
                } else {
                    assert(kept[m] == s[m + 1]);
                }
            }
        },
        None => {
            assert(kept == s);
        },
    }
    assert(t[j + 1] == s[i]);
    assert(t[0] == n);
    assert(!audible_question(n));
    assert forall|m: int| 0 <= m < j + 1 implies !#[trigger] audible_question(t[m]) by {
        if m > 0 {
            assert(t[m] == kept[m - 1]);
        }
    }
    assert(is_first_audible_question(t, j + 1));
    law_questions_take_priority(t);
    let m = audio_choice(t)->0;
    lemma_first_audible_question_unique(t, m, j + 1);
}

/// A new or replaced alert opens the window.
pub proof fn law_new_alert_opens_the_window(previous: Seq<Seq<char>>, next: Seq<Seq<char>>, k: int)
    requires
        0 <= k < next.len(),
        !previous.contains(next[k]),
    ensures
        visibility(previous, next) == VisibilityChange::Show,
{
}

/// Reordering the alerts, or clearing some while others remain, leaves the
/// window as it is.
pub proof fn law_fewer_or_reordered_alerts_keep_the_window(
    previous: Seq<Seq<char>>,
    next: Seq<Seq<char>>,
)
    requires
        forall|i: int| 0 <= i < next.len() ==> previous.contains(#[trigger] next[i]),
        next.len() > 0 || previous.len() == 0,
    ensures
        visibility(previous, next) == VisibilityChange::Keep,
{
}

/// Clearing the last alert hides the window.
pub proof fn law_last_alert_cleared_hides_the_window(previous: Seq<Seq<char>>)
    requires
        previous.len() > 0,
    ensures
        visibility(previous, Seq::empty()) == VisibilityChange::Hide,
{
}

/// Any active alert can be dismissed by its id, wherever it stands in the list:
/// the dismissal is reported, and that alert is no longer among the active ones.
pub proof fn law_any_active_alert_can_be_dismissed(s: Seq<Notification>, id: Seq<char>, i: int)
    requires
        0 <= i < s.len(),
        s[i].id@ == id,
    ensures
        has_id(s, id),
        !without_id(s, id).contains(s[i]),
        without_id(s, id).len() < s.len(),
{
    assert(s[i].id@ == id);
    law_dismiss_clears_only_that_alert(s, id);
    lemma_without_id_shorter(s, id, i);
}

/// An id that no active alert has dismisses nothing.
pub proof fn law_unknown_ids_dismiss_nothing(s: Seq<Notification>, id: Seq<char>)
    requires
        forall|j: int| 0 <= j < s.len() ==> (#[trigger] s[j]).id@ != id,
    ensures
        !has_id(s, id),
{
}

proof fn lemma_without_id_len(s: Seq<Notification>, id: Seq<char>)
    ensures
        without_id(s, id).len() <= s.len(),
    decreases s.len(),
{
    if s.len() > 0 {
        lemma_without_id_len(s.drop_last(), id);
    }
}

proof fn lemma_without_id_shorter(s: Seq<Notification>, id: Seq<char>, i: int)
    requires
        0 <= i < s.len(),
        s[i].id@ == id,
    ensures
        without_id(s, id).len() < s.len(),
    decreases s.len(),
{
    lemma_without_id_len(s.drop_last(), id);
    if i < s.len() - 1 {
        assert(s.drop_last()[i] == s[i]);
        lemma_without_id_shorter(s.drop_last(), id, i);
    }
}

/// Where an alert with id `id` still sounds at `i`, a first one does, at or before it.
proof fn lemma_first_silenceable_exists(s: Seq<Notification>, id: Seq<char>, i: int)
    requires
        0 <= i < s.len(),
        s[i].id@ == id,
        !s[i].silenced,
    ensures
        exists|k: int| 0 <= k <= i && is_first_silenceable(s, id, k),
    decreases i,
{
    if forall|j: int| 0 <= j < i ==> !((#[trigger] s[j]).id@ == id && !s[j].silenced) {
        assert(is_first_silenceable(s, id, i));
    } else {
        let j = choose|j: int| 0 <= j < i && (#[trigger] s[j]).id@ == id && !s[j].silenced;
        lemma_first_silenceable_exists(s, id, j);
    }
}

/// Any alert that still sounds can be silenced by its id, wherever it stands in
/// the list: the alert silenced is the first sounding one with that id, at or
/// before it.
pub proof fn law_any_sounding_alert_can_be_silenced(s: Seq<Notification>, id: Seq<char>, i: int)
    requires
        0 <= i < s.len(),
        s[i].id@ == id,
        !s[i].silenced,
    ensures
        silence_slot(s, id) matches Some(k) && 0 <= k <= i && s[k].id@ == id && !s[k].silenced
            && forall|j: int| 0 <= j < k ==> !((#[trigger] s[j]).id@ == id && !s[j].silenced),
{
    lemma_first_silenceable_exists(s, id, i);
    let k0 = choose|k: int| 0 <= k <= i && is_first_silenceable(s, id, k);
    let k = silence_slot(s, id)->0;
    assert(is_first_silenceable(s, id, k));
    if k < k0 {
        assert(!(s[k].id@ == id && !s[k].silenced));
    }
    if k > k0 {
        assert(!(s[k0].id@ == id && !s[k0].silenced));
    }
}

/// An id with no alert that still sounds silences nothing.
pub proof fn law_nothing_sounding_silences_nothing(s: Seq<Notification>, id: Seq<char>)
    requires
        forall|j: int| 0 <= j < s.len() ==> !((#[trigger] s[j]).id@ == id && !s[j].silenced),
    ensures
        silence_slot(s, id) is None,
{
    if exists|k: int| is_first_silenceable(s, id, k) {
        let k = choose|k: int| is_first_silenceable(s, id, k);
        assert(!(s[k].id@ == id && !s[k].silenced));
    }
}

/// A character that may stand in a macOS bundle identifier.
pub open spec fn bundle_identifier_char(c: char) -> bool {
    ('a' <= c && c <= 'z') || ('A' <= c && c <= 'Z') || ('0' <= c && c <= '9') || c == '.' || c
        == '-' || c == '_'
}

proof fn lemma_ascii_utf8_len(s: Seq<char>)
    requires
        forall|i: int| 0 <= i < s.len() ==> (#[trigger] s[i] as u32) < 0x80,
    ensures
        utf8_len(s) == s.len(),
    decreases s.len(),
{
    if s.len() > 0 {
        assert((s[0] as u32) < 0x80);
        assert forall|i: int| 0 <= i < s.len() - 1 implies (#[trigger] s.drop_first()[i] as u32)
            < 0x80 by {
            assert(s.drop_first()[i] == s[i + 1]);
        }
        lemma_ascii_utf8_len(s.drop_first());
    }
}

/// A macOS bundle identifier (ASCII letters, digits, `.`, `-` and `_`; 1 to 1024
/// of them) is an accepted terminal application: an origin that names only it
/// passes validation.
pub proof fn law_bundle_identifiers_are_valid_terminal_apps(o: OriginView)
    requires
        o.terminal_app matches Some(s) && 0 < s.len() <= 1024 && forall|i: int|
            0 <= i < s.len() ==> bundle_identifier_char(#[trigger] s[i]),
        o.app_pid is None,
        o.pid is None,
        o.terminal_id is None,
        o.tty is None,
        o.window_id is None,
        o.window_title is None,
        o.tmux_socket is None,
        o.tmux_pane is None,
        o.tmux_client is None,
    ensures
        origin_fault(o) is None,
{
    let s = o.terminal_app->0;
    assert(bundle_identifier_char(s[0]));
    assert(!crate::text::is_white_space_char(s[0]));
    assert(leading_ws(s) == 0);
    lemma_trailing_ws_not_all(s);
    assert(s.skip(0) =~= s);
    assert(trim_view(s).len() == s.len() - trailing_ws(s));
    assert forall|i: int| 0 <= i < s.len() implies (#[trigger] s[i] as u32) < 0x80 by {
        assert(bundle_identifier_char(s[i]));
    }
    lemma_ascii_utf8_len(s);
    lemma_utf8_len_encode(s);
    assert forall|i: int| 0 <= i < s.len() implies !crate::text::is_control_char(#[trigger] s[i]) by {
        assert(bundle_identifier_char(s[i]));
    }
    assert forall|i: int| 0 <= i < s.len() implies #[trigger] crate::origin::is_bundle_char(s[i]) by {
        assert(bundle_identifier_char(s[i]));
    }
}

/// An alert's sound loop plays the primary sound configured for its kind, if
/// there is one, then every extra sound configured for that kind, in order.
pub proof fn law_loops_play_every_configured_sound(c: SoundConfig)
    ensures
        c.pool_view(false) == (match c.alert_await_user_input_sound {
            Some(p) => seq![p],
            None => Seq::empty(),
        }) + c.extra_alert_await_sounds@,
        c.pool_view(true) == (match c.alert_done_sound {
            Some(p) => seq![p],
            None => Seq::empty(),
        }) + c.extra_alert_done_sounds@,
{
}

/// The terminals' own scripts serve every target they expose (Ghostty all but
/// a TTY, Terminal all but a session id, iTerm2 all of them), with the target
/// handed to the script as data; the application itself is activated.
pub proof fn law_terminal_scripts_serve_exposed_targets(bundle: Seq<char>, t: Target)
    requires
        bundle == "com.mitchellh.ghostty"@ || bundle == "com.apple.Terminal"@ || bundle
            == "com.googlecode.iterm2"@,
        !(bundle == "com.mitchellh.ghostty"@ && t is Tty),
        !(bundle == "com.apple.Terminal"@ && t is Terminal),
    ensures
        t is Application ==> planned(bundle, t) == PlanView::Activate,
        !(t is Application) ==> planned(bundle, t) == PlanView::Script(
            if bundle == "com.mitchellh.ghostty"@ {
                ScriptKind::Ghostty
            } else if bundle == "com.apple.Terminal"@ {
                ScriptKind::Terminal
            } else {
                ScriptKind::ITerm
            },
            match t {
                Target::Terminal(_) => "terminal"@,
                Target::Tty(_) => "tty"@,
                Target::WindowId(_) => "window"@,
                _ => "title"@,
            },
            match t {
                Target::Terminal(v) => v@,
                Target::Tty(v) => v@,
                Target::WindowId(v) => v@,
                Target::WindowTitle(v) => v@,
                Target::Application => Seq::empty(),
            },
        ),
{
    reveal_strlit("com.mitchellh.ghostty");
    reveal_strlit("com.apple.Terminal");
    reveal_strlit("com.googlecode.iterm2");
    reveal_strlit("terminal");
    reveal_strlit("tty");
    reveal_strlit("window");
    reveal_strlit("title");
    let g = "com.mitchellh.ghostty"@;
    let a = "com.apple.Terminal"@;
    let i = "com.googlecode.iterm2"@;
    assert(g.len() == 21 && a.len() == 18 && i.len() == 21);
    assert(g[4] != i[4]);
    assert(g != a && g != i && a != i);
    assert("terminal"@.len() == 8 && "tty"@.len() == 3 && "window"@.len() == 6 && "title"@.len() == 5);
    assert("terminal"@ != "tty"@ && "window"@ != "tty"@ && "title"@ != "tty"@);
    assert("window"@ != "terminal"@ && "title"@ != "terminal"@ && "tty"@ != "terminal"@);
    assert("window"@ != "title"@ && "terminal"@ != "title"@ && "tty"@ != "title"@);
}

/// A terminal application with a character that no bundle identifier has is
/// refused.
pub proof fn law_other_terminal_apps_are_refused(o: OriginView, i: int)
    requires
        o.terminal_app matches Some(s) && 0 <= i < s.len() && !bundle_identifier_char(s[i]),
    ensures
        origin_fault(o) is Some,
{
    let s = o.terminal_app->0;
    assert(!crate::origin::is_bundle_char(s[i]));
    assert(!crate::origin::bundle_name_ok(s));
}

/// Only two session identifiers are refused as not exposed, a TTY in Ghostty
/// and a session id in Terminal; in other applications a window title goes to
/// the generic window script and any other identifier is refused as unsupported.
pub proof fn law_refusals_and_the_generic_window_script(bundle: Seq<char>, t: Target)
    ensures
        (bundle == "com.mitchellh.ghostty"@ && t is Tty) || (bundle == "com.apple.Terminal"@
            && t is Terminal) ==> planned(bundle, t) == PlanView::Refuse(
            "This terminal does not expose that session identifier; using a broader target."@,
        ),
        bundle != "com.mitchellh.ghostty"@ && bundle != "com.apple.Terminal"@ && bundle
            != "com.googlecode.iterm2"@ ==> match t {
            Target::Application => planned(bundle, t) == PlanView::Activate,
            Target::WindowTitle(v) => planned(bundle, t) == PlanView::Script(
                ScriptKind::Window,
                "title"@,
                v@,
            ),
            _ => planned(bundle, t) == PlanView::Refuse(
                "This app does not support the supplied terminal/window identifier."@,
            ),
        },
{
    reveal_strlit("com.mitchellh.ghostty");
    reveal_strlit("com.apple.Terminal");
    reveal_strlit("com.googlecode.iterm2");
    reveal_strlit("terminal");
    reveal_strlit("tty");
    reveal_strlit("window");
    reveal_strlit("title");
    assert("terminal"@.len() == 8 && "tty"@.len() == 3 && "window"@.len() == 6 && "title"@.len() == 5);
    assert("window"@ != "title"@ && "terminal"@ != "title"@ && "tty"@ != "title"@);
    assert("window"@ != "tty"@ && "terminal"@ != "tty"@);
    assert("tty"@ != "terminal"@ && "window"@ != "terminal"@ && "title"@ != "terminal"@);
}

} // verus!
