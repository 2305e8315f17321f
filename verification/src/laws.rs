//! Laws of the document layer, stated once and proved for every input: the
//! insert-or-replace discipline of scene and stage saving, and the at-most-
//! once payload delivery of the editor handshake.

use vstd::prelude::*;
use crate::id::{dec_digit, dec_seq};
use crate::model::{
    has_scene, has_stage, scene_ids_unique, scene_index, stage_ids_unique, stage_index,
    upsert_scene_seq, upsert_stage_seq, SceneV, StageV,
};
use crate::orchestrator::{
    after_ready, has_session, ready_delivery, session_index, session_key, session_keys_unique,
    PayloadV, SessionV,
};

verus! {

/// The decimal rendering of `n` has one character exactly when `n` is one
/// digit, and never fewer.
proof fn lemma_dec_seq_len(n: nat)
    ensures
        dec_seq(n).len() >= 1,
        (dec_seq(n).len() == 1) == (n < 10),
    decreases n,
{
    if n >= 10 {
        lemma_dec_seq_len(n / 10);
    }
}

/// Law: distinct counter values render to distinct identifier tokens, so the
/// identifiers handed out over a process's lifetime never collide.
pub proof fn lemma_identifiers_distinct(a: nat, b: nat)
    requires
        a != b,
    ensures
        dec_seq(a) != dec_seq(b),
    decreases a + b,
{
    if dec_seq(a) == dec_seq(b) {
        lemma_dec_seq_len(a);
        lemma_dec_seq_len(b);
        if a < 10 && b < 10 {
            assert(dec_seq(a)[0] == dec_digit(a));
            assert(dec_seq(b)[0] == dec_digit(b));
        } else if a >= 10 && b >= 10 {
            assert(dec_seq(a).last() == dec_digit(a % 10));
            assert(dec_seq(b).last() == dec_digit(b % 10));
            assert(a % 10 == b % 10);
            assert(dec_seq(a).drop_last() =~= dec_seq(a / 10));
            assert(dec_seq(b).drop_last() =~= dec_seq(b / 10));
            if a / 10 != b / 10 {
                lemma_identifiers_distinct(a / 10, b / 10);
            }
            assert(a == (a / 10) * 10 + a % 10);
            assert(b == (b / 10) * 10 + b % 10);
        }
    }
}

/// Law: after a scene is saved into a document with unique identifiers, the
/// document contains the saved scene, and no two scenes share an identifier —
/// so exactly one scene carries the saved scene's identifier, and it equals
/// the saved scene.
pub proof fn lemma_save_scene_exactly_one(s: Seq<SceneV>, x: SceneV)
    requires
        scene_ids_unique(s),
    ensures
        scene_ids_unique(upsert_scene_seq(s, x)),
        exists|i: int|
            0 <= i < upsert_scene_seq(s, x).len() && upsert_scene_seq(s, x)[i] == x,
{
    let r = upsert_scene_seq(s, x);
    if has_scene(s, x.id) {
        let i = scene_index(s, x.id);
        assert(0 <= i < s.len() && s[i].id == x.id);
        assert(r[i] == x);
        assert(scene_ids_unique(r)) by {
            assert forall|a: int, b: int| 0 <= a < b < r.len() implies r[a].id != r[b].id by {
                assert(r[a].id == s[a].id);
                assert(r[b].id == s[b].id);
            }
        }
    } else {
        assert(r[s.len() as int] == x);
        assert(scene_ids_unique(r)) by {
            assert forall|a: int, b: int| 0 <= a < b < r.len() implies r[a].id != r[b].id by {
                if b < s.len() {
                    assert(r[a].id == s[a].id);
                    assert(r[b].id == s[b].id);
                } else {
                    assert(r[b] == x);
                    assert(r[a] == s[a]);
                    assert(!(0 <= a < s.len() && s[a].id == x.id));
                }
            }
        }
    }
}

/// Law: saving the same scene twice yields the same document as saving it
/// once — one entry, not two.
pub proof fn lemma_save_scene_idempotent(s: Seq<SceneV>, x: SceneV)
    requires
        scene_ids_unique(s),
    ensures
        upsert_scene_seq(upsert_scene_seq(s, x), x) == upsert_scene_seq(s, x),
{
    let r1 = upsert_scene_seq(s, x);
    lemma_save_scene_exactly_one(s, x);
    let w = choose|i: int| 0 <= i < r1.len() && r1[i] == x;
    assert(r1[w].id == x.id);
    crate::model::lemma_scene_index_unique(r1, x.id, w);
    assert(has_scene(r1, x.id));
    let r2 = upsert_scene_seq(r1, x);
    assert(r2 == r1.update(w, x));
    assert(r2 =~= r1);
}

/// Law: merging a stage into a stage list with unique identifiers replaces
/// the matching stage in place — its sequence position and every other stage
/// preserved — or appends a stage under a new identifier at the end.
pub proof fn lemma_stage_merge(st: Seq<StageV>, x: StageV)
    requires
        stage_ids_unique(st),
    ensures
        has_stage(st, x.id) ==> ({
            let i = stage_index(st, x.id);
            &&& upsert_stage_seq(st, x).len() == st.len()
            &&& upsert_stage_seq(st, x)[i] == x
            &&& forall|j: int|
                0 <= j < st.len() && j != i ==> upsert_stage_seq(st, x)[j] == st[j]
        }),
        !has_stage(st, x.id) ==> upsert_stage_seq(st, x) == st.push(x),
        stage_ids_unique(upsert_stage_seq(st, x)),
{
    let r = upsert_stage_seq(st, x);
    if has_stage(st, x.id) {
        let i = stage_index(st, x.id);
        assert(0 <= i < st.len() && st[i].id == x.id);
        assert(stage_ids_unique(r)) by {
            assert forall|a: int, b: int| 0 <= a < b < r.len() implies r[a].id != r[b].id by {
                assert(r[a].id == st[a].id);
                assert(r[b].id == st[b].id);
            }
        }
    } else {
        assert(stage_ids_unique(r)) by {
            assert forall|a: int, b: int| 0 <= a < b < r.len() implies r[a].id != r[b].id by {
                if b < st.len() {
                    assert(r[a].id == st[a].id);
                    assert(r[b].id == st[b].id);
                } else {
                    assert(r[b] == x);
                    assert(r[a] == st[a]);
                    assert(!(0 <= a < st.len() && st[a].id == x.id));
                }
            }
        }
    }
}

/// Law: opening an editor registers its payload undelivered, and the first
/// readiness signal for that window delivers exactly that payload.
pub proof fn lemma_open_then_ready(s: Seq<SessionV>, p: PayloadV)
    requires
        session_keys_unique(s),
        !has_session(s, p.stage.id),
    ensures
        ready_delivery(s.push(SessionV { payload: p, delivered: false }), p.stage.id)
            == Option::Some(p),
{
    let e = SessionV { payload: p, delivered: false };
    let r = s.push(e);
    assert(session_key(r[s.len() as int]) == p.stage.id);
    assert(session_keys_unique(r)) by {
        assert forall|a: int, b: int|
            0 <= a < b < r.len() implies session_key(r[a]) != session_key(r[b]) by {
            if b < s.len() {
                assert(r[a] == s[a]);
                assert(r[b] == s[b]);
            } else {
                assert(r[b] == e);
                assert(r[a] == s[a]);
                assert(!(0 <= a < s.len() && session_key(s[a]) == p.stage.id));
            }
        }
    }
    crate::orchestrator::lemma_session_index_unique(r, p.stage.id, s.len() as int);
}

/// Law: a payload is delivered at most once.  Whatever a readiness signal
/// did, a second signal for the same window delivers nothing.
pub proof fn lemma_ready_delivers_at_most_once(s: Seq<SessionV>, id: Seq<char>)
    requires
        session_keys_unique(s),
    ensures
        ready_delivery(after_ready(s, id), id) == Option::<PayloadV>::None,
{
    if has_session(s, id) && !s[session_index(s, id)].delivered {
        let i = session_index(s, id);
        assert(0 <= i < s.len() && session_key(s[i]) == id);
        let r = after_ready(s, id);
        assert(session_key(r[i]) == id);
        assert(session_keys_unique(r)) by {
            assert forall|a: int, b: int|
                0 <= a < b < r.len() implies session_key(r[a]) != session_key(r[b]) by {
                assert(session_key(r[a]) == session_key(s[a]));
                assert(session_key(r[b]) == session_key(s[b]));
            }
        }
        crate::orchestrator::lemma_session_index_unique(r, id, i);
        assert(r[session_index(r, id)].delivered);
    }
}

} // verus!
