//! Satellite editor sessions and the one-shot payload handshake.
//!
//! Every stage editor window corresponds to one `EditorSession`, keyed by the
//! identifier of the stage it edits.  The payload is not handed over when the
//! window is created: the window signals readiness first, and the payload is
//! delivered on that signal exactly once — a second readiness signal delivers
//! nothing.

use vstd::prelude::*;
use crate::id::NanoID;
use crate::model::{
    clone_infos, clone_positions, info_views, position_views, PositionInfo, PositionInfoV,
    Position, PositionV, Stage, StageV,
};

verus! {

/// The bundle handed to one satellite editor window: the owning scene's
/// identifier, the stage under edit, and a snapshot of the scene's position
/// and metadata lists at hand-off time.
pub struct EditorPayload {
    pub scene: NanoID,
    pub stage: Stage,
    pub positions: Vec<Position>,
    pub infos: Vec<PositionInfo>,
}

/// Abstract value of an [`EditorPayload`].
#[verifier::ext_equal]
pub ghost struct PayloadV {
    pub scene: Seq<char>,
    pub stage: StageV,
    pub positions: Seq<PositionV>,
    pub infos: Seq<PositionInfoV>,
}

impl View for EditorPayload {
    type V = PayloadV;

    open spec fn view(&self) -> PayloadV {
        PayloadV {
            scene: self.scene@,
            stage: self.stage@,
            positions: position_views(self.positions@),
            infos: info_views(self.infos@),
        }
    }
}

impl PayloadV {
    /// The position snapshot and its metadata are co-indexed.
    pub open spec fn wf(self) -> bool {
        self.positions.len() == self.infos.len()
    }
}

impl Clone for EditorPayload {
    fn clone(&self) -> (r: EditorPayload)
        ensures
            r@ == self@,
    {
        EditorPayload {
            scene: self.scene.clone(),
            stage: self.stage.clone(),
            positions: clone_positions(&self.positions),
            infos: clone_infos(&self.infos),
        }
    }
}

/// One live satellite window: its payload and whether the payload has already
/// been delivered to it.
pub struct EditorSession {
    pub payload: EditorPayload,
    pub delivered: bool,
}

/// Abstract value of an [`EditorSession`].
#[verifier::ext_equal]
pub ghost struct SessionV {
    pub payload: PayloadV,
    pub delivered: bool,
}

impl View for EditorSession {
    type V = SessionV;

    open spec fn view(&self) -> SessionV {
        SessionV { payload: self.payload@, delivered: self.delivered }
    }
}

/// The views of a session list.
pub open spec fn session_views(s: Seq<EditorSession>) -> Seq<SessionV> {
    s.map_values(|e: EditorSession| e@)
}

/// The stage identifier a session is keyed by.
pub open spec fn session_key(e: SessionV) -> Seq<char> {
    e.payload.stage.id
}

/// No two sessions edit the same stage.
pub open spec fn session_keys_unique(s: Seq<SessionV>) -> bool {
    forall|i: int, j: int|
        0 <= i < j < s.len() ==> session_key(s[i]) != session_key(s[j])
}

/// Some session is keyed by `id`.
pub open spec fn has_session(s: Seq<SessionV>, id: Seq<char>) -> bool {
    exists|i: int| 0 <= i < s.len() && session_key(s[i]) == id
}

/// The index of the session keyed by `id` (meaningful only when
/// `has_session`).
pub open spec fn session_index(s: Seq<SessionV>, id: Seq<char>) -> int {
    choose|i: int| 0 <= i < s.len() && session_key(s[i]) == id
}

/// What a readiness signal for `id` delivers: the session's payload on the
/// first signal, nothing on any later one (and nothing for an unknown key).
pub open spec fn ready_delivery(s: Seq<SessionV>, id: Seq<char>) -> Option<PayloadV> {
    if has_session(s, id) && !s[session_index(s, id)].delivered {
        Option::Some(s[session_index(s, id)].payload)
    } else {
        Option::None
    }
}

/// The session list after a readiness signal for `id`: the addressed session
/// is marked delivered; nothing else changes.
pub open spec fn after_ready(s: Seq<SessionV>, id: Seq<char>) -> Seq<SessionV> {
    if has_session(s, id) && !s[session_index(s, id)].delivered {
        s.update(
            session_index(s, id),
            SessionV { payload: s[session_index(s, id)].payload, delivered: true },
        )
    } else {
        s
    }
}

/// Under unique session keys, any matching index is the chosen one.
pub proof fn lemma_session_index_unique(s: Seq<SessionV>, id: Seq<char>, i: int)
    requires
        session_keys_unique(s),
        0 <= i < s.len(),
        session_key(s[i]) == id,
    ensures
        has_session(s, id),
        session_index(s, id) == i,
{
    assert(has_session(s, id)) by {
        assert(0 <= i < s.len() && session_key(s[i]) == id);
    }
    let j = session_index(s, id);
    assert(0 <= j < s.len() && session_key(s[j]) == id);
    if i < j {
        assert(session_key(s[i]) != session_key(s[j]));
    } else if j < i {
        assert(session_key(s[j]) != session_key(s[i]));
    }
}

/// Outcome of asking for a new editor window.
#[derive(Clone, Copy, PartialEq, Eq, Structural, Debug)]
pub enum OpenOutcome {
    /// A new window was opened for the stage.
    Opened,
    /// A window for this stage already exists; the front end should focus it
    /// instead of opening a duplicate.
    AlreadyOpen,
}

/// Manages the lifecycle of satellite editor windows and the one-shot payload
/// handshake.  It never touches the document store.
pub struct Orchestrator {
    pub sessions: Vec<EditorSession>,
}

impl Orchestrator {
    /// Orchestrator invariant: at most one live session per stage identifier.
    pub open spec fn inv(self) -> bool {
        session_keys_unique(session_views(self.sessions@))
    }

    pub fn new() -> (r: Orchestrator)
        ensures
            session_views(r.sessions@).len() == 0,
            r.inv(),
    {
        let r = Orchestrator { sessions: Vec::new() };
        proof {
            assert(session_views(r.sessions@) =~= Seq::<SessionV>::empty());
        }
        r
    }

    fn find_session(&self, id: &NanoID) -> (r: Option<usize>)
        ensures
            match r {
                Option::Some(i) => i < self.sessions@.len() && session_key(
                    session_views(self.sessions@)[i as int],
                ) == id@,
                Option::None => !has_session(session_views(self.sessions@), id@),
            },
    {
        let n = self.sessions.len();
        let mut k: usize = 0;
        while k < n
            invariant
                k <= n,
                n == self.sessions@.len(),
                forall|j: int|
                    0 <= j < k ==> session_key(session_views(self.sessions@)[j]) != id@,
            decreases n - k,
        {
            if self.sessions[k].payload.stage.id.eq_id(id) {
                return Option::Some(k);
            }
            k += 1;
        }
        proof {
            assert(!has_session(session_views(self.sessions@), id@));
        }
        Option::None
    }

    /// Registers a new editor session for the payload's stage, with the
    /// payload still undelivered.  A stage that already has a live session is
    /// rejected, never silently duplicated.
    pub fn open_editor(&mut self, payload: EditorPayload) -> (r: OpenOutcome)
        requires
            old(self).inv(),
        ensures
            final(self).inv(),
            r == OpenOutcome::Opened <==> !has_session(
                session_views(old(self).sessions@),
                payload@.stage.id,
            ),
            r == OpenOutcome::Opened ==> session_views(final(self).sessions@)
                == session_views(old(self).sessions@).push(
                SessionV { payload: payload@, delivered: false },
            ),
            r == OpenOutcome::AlreadyOpen ==> final(self).sessions@ == old(self).sessions@,
    {
        let ghost old_views = session_views(old(self).sessions@);
        match self.find_session(&payload.stage.id) {
            Option::Some(_) => OpenOutcome::AlreadyOpen,
            Option::None => {
                self.sessions.push(EditorSession { payload, delivered: false });
                proof {
                    assert(session_views(self.sessions@) =~= old_views.push(
                        SessionV { payload: payload@, delivered: false },
                    ));
                    assert(session_keys_unique(session_views(self.sessions@)));
                }
                OpenOutcome::Opened
            },
        }
    }

    /// Handles a window's readiness signal: on the first signal for a live
    /// session the payload is returned (to be sent to that window) and the
    /// session is marked delivered; any later signal, and a signal from an
    /// unknown window, delivers nothing.
    pub fn signal_ready(&mut self, stage_id: &NanoID) -> (r: Option<EditorPayload>)
        requires
            old(self).inv(),
        ensures
            final(self).inv(),
            session_views(final(self).sessions@) == after_ready(
                session_views(old(self).sessions@),
                stage_id@,
            ),
            (match r {
                Option::Some(p) => Option::Some(p@),
                Option::None => Option::<PayloadV>::None,
            }) == ready_delivery(session_views(old(self).sessions@), stage_id@),
    {
        let ghost old_views = session_views(old(self).sessions@);
        match self.find_session(stage_id) {
            Option::Some(i) => {
                proof {
                    lemma_session_index_unique(old_views, stage_id@, i as int);
                }
                if self.sessions[i].delivered {
                    Option::None
                } else {
                    let out = self.sessions[i].payload.clone();
                    let stored = out.clone();
                    self.sessions.set(i, EditorSession { payload: stored, delivered: true });
                    proof {
                        assert(session_views(self.sessions@) =~= old_views.update(
                            i as int,
                            SessionV { payload: old_views[i as int].payload, delivered: true },
                        ));
                        assert(session_keys_unique(session_views(self.sessions@)));
                    }
                    Option::Some(out)
                }
            },
            Option::None => Option::None,
        }
    }

    /// Drops the session keyed by `stage_id`, if any; returns whether one
    /// existed.  Used both when a window saves and closes and when it is
    /// closed without saving (the payload is simply discarded).
    pub fn close_editor(&mut self, stage_id: &NanoID) -> (r: bool)
        requires
            old(self).inv(),
        ensures
            final(self).inv(),
            r == has_session(session_views(old(self).sessions@), stage_id@),
            r ==> session_views(final(self).sessions@) == session_views(
                old(self).sessions@,
            ).remove(session_index(session_views(old(self).sessions@), stage_id@)),
            !r ==> final(self).sessions@ == old(self).sessions@,
    {
        let ghost old_views = session_views(old(self).sessions@);
        match self.find_session(stage_id) {
            Option::Some(i) => {
                proof {
                    lemma_session_index_unique(old_views, stage_id@, i as int);
                }
                let _ = self.sessions.remove(i);
                proof {
                    assert(session_views(self.sessions@) =~= old_views.remove(i as int));
                    assert(session_keys_unique(session_views(self.sessions@)));
                }
                true
            },
            Option::None => false,
        }
    }

    /// A satellite window saved: builds the payload that is broadcast to the
    /// primary window and drops the calling window's session.  Applying the
    /// payload to the document is the primary window's job (see
    /// [`crate::state::AppState::apply_stage_save`]); the orchestrator does
    /// not touch the document.
    pub fn stage_save_and_close(
        &mut self,
        scene: NanoID,
        positions: Vec<Position>,
        infos: Vec<PositionInfo>,
        stage: Stage,
    ) -> (r: EditorPayload)
        requires
            old(self).inv(),
            position_views(positions@).len() == info_views(infos@).len(),
        ensures
            final(self).inv(),
            r@ == (PayloadV {
                scene: scene@,
                stage: stage@,
                positions: position_views(positions@),
                infos: info_views(infos@),
            }),
            r@.wf(),
            has_session(session_views(old(self).sessions@), stage@.id)
                ==> session_views(final(self).sessions@) == session_views(
                old(self).sessions@,
            ).remove(session_index(session_views(old(self).sessions@), stage@.id)),
            !has_session(session_views(old(self).sessions@), stage@.id)
                ==> final(self).sessions@ == old(self).sessions@,
    {
        let _ = self.close_editor(&stage.id);
        EditorPayload { scene, stage, positions, infos }
    }
}

} // verus!
