//! Importing externally supplied offset metadata into the package.
//!
//! An import is all-or-nothing: every entry must name a scene present in the
//! package and carry exactly one offset per position of that scene, else the
//! whole import is rejected and the package is left untouched.

use vstd::prelude::*;
use crate::errors::ImportError;
use crate::id::NanoID;
use crate::model::{
    find_scene_index, has_scene, lemma_scene_index_unique, position_views, scene_ids_unique,
    scene_index, scene_views, Offset, Position, PositionV, SceneV,
};
use crate::state::AppState;

verus! {

/// One parsed entry of an offset source: the addressed scene and one offset
/// per position of that scene.
pub struct OffsetEntry {
    pub scene: NanoID,
    pub offsets: Vec<Offset>,
}

/// Abstract value of an [`OffsetEntry`].
#[verifier::ext_equal]
pub ghost struct OffsetEntryV {
    pub scene: Seq<char>,
    pub offsets: Seq<Offset>,
}

impl View for OffsetEntry {
    type V = OffsetEntryV;

    open spec fn view(&self) -> OffsetEntryV {
        OffsetEntryV { scene: self.scene@, offsets: self.offsets@ }
    }
}

/// The views of an entry list.
pub open spec fn entry_views(s: Seq<OffsetEntry>) -> Seq<OffsetEntryV> {
    s.map_values(|e: OffsetEntry| e@)
}

/// Whether one entry can be applied to `scenes`: its scene exists and it
/// carries exactly one offset per position.
pub open spec fn entry_applies(scenes: Seq<SceneV>, e: OffsetEntryV) -> bool {
    &&& has_scene(scenes, e.scene)
    &&& scenes[scene_index(scenes, e.scene)].positions.len() == e.offsets.len()
}

/// Why one entry cannot be applied (meaningful only when `!entry_applies`).
pub open spec fn entry_error(scenes: Seq<SceneV>, e: OffsetEntryV) -> ImportError {
    if !has_scene(scenes, e.scene) {
        ImportError::UnknownTarget
    } else {
        ImportError::LengthMismatch
    }
}

/// The position list with its offsets replaced, index by index.
pub open spec fn with_offsets(ps: Seq<PositionV>, os: Seq<Offset>) -> Seq<PositionV> {
    Seq::new(
        ps.len(),
        |k: int| PositionV { race_key: ps[k].race_key, event: ps[k].event, offset: os[k] },
    )
}

/// One entry applied: the addressed scene's positions get the entry's
/// offsets; everything else is untouched.
pub open spec fn apply_entry(scenes: Seq<SceneV>, e: OffsetEntryV) -> Seq<SceneV>
    recommends
        entry_applies(scenes, e),
{
    let i = scene_index(scenes, e.scene);
    let sc = scenes[i];
    scenes.update(
        i,
        SceneV {
            id: sc.id,
            name: sc.name,
            positions: with_offsets(sc.positions, e.offsets),
            position_infos: sc.position_infos,
            stages: sc.stages,
        },
    )
}

/// The verdict of an import, judged against the package as it stood when the
/// import began: the error of the first entry that does not apply, else
/// success.
pub open spec fn import_result(scenes: Seq<SceneV>, es: Seq<OffsetEntryV>) -> Result<
    (),
    ImportError,
>
    decreases es.len(),
{
    if es.len() == 0 {
        Result::Ok(())
    } else if !entry_applies(scenes, es[0]) {
        Result::Err(entry_error(scenes, es[0]))
    } else {
        import_result(scenes, es.skip(1))
    }
}

/// All entries applied in order.
pub open spec fn apply_entries(scenes: Seq<SceneV>, es: Seq<OffsetEntryV>) -> Seq<SceneV>
    decreases es.len(),
{
    if es.len() == 0 {
        scenes
    } else {
        apply_entries(apply_entry(scenes, es[0]), es.skip(1))
    }
}

/// `b` has the scenes of `a`: same count, same identifiers in the same
/// order, same position counts.
pub open spec fn same_shape(a: Seq<SceneV>, b: Seq<SceneV>) -> bool {
    &&& a.len() == b.len()
    &&& forall|i: int|
        0 <= i < a.len() ==> (#[trigger] b[i]).id == a[i].id && b[i].positions.len()
            == a[i].positions.len()
}

/// When every entry applies, the import succeeds.
proof fn lemma_import_result_ok(scenes: Seq<SceneV>, es: Seq<OffsetEntryV>)
    requires
        forall|j: int| 0 <= j < es.len() ==> entry_applies(scenes, #[trigger] es[j]),
    ensures
        import_result(scenes, es) == Result::<(), ImportError>::Ok(()),
    decreases es.len(),
{
    if es.len() != 0 {
        assert(entry_applies(scenes, es[0]));
        assert forall|j: int|
            0 <= j < es.skip(1).len() implies entry_applies(scenes, #[trigger] es.skip(1)[j]) by {
            assert(es.skip(1)[j] == es[j + 1]);
        }
        lemma_import_result_ok(scenes, es.skip(1));
    }
}

/// When the first `k` entries apply and entry `k` does not, the import fails
/// with entry `k`'s error.
proof fn lemma_import_result_err(scenes: Seq<SceneV>, es: Seq<OffsetEntryV>, k: int)
    requires
        0 <= k < es.len(),
        forall|j: int| 0 <= j < k ==> entry_applies(scenes, #[trigger] es[j]),
        !entry_applies(scenes, es[k]),
    ensures
        import_result(scenes, es) == Result::<(), ImportError>::Err(entry_error(scenes, es[k])),
    decreases k,
{
    if k == 0 {
    } else {
        assert(entry_applies(scenes, es[0]));
        assert forall|j: int|
            0 <= j < k - 1 implies entry_applies(scenes, #[trigger] es.skip(1)[j]) by {
            assert(es.skip(1)[j] == es[j + 1]);
        }
        assert(es.skip(1)[k - 1] == es[k]);
        lemma_import_result_err(scenes, es.skip(1), k - 1);
    }
}

/// Applying the first `k + 1` entries is applying the first `k`, then entry
/// `k`.
proof fn lemma_apply_entries_snoc(scenes: Seq<SceneV>, es: Seq<OffsetEntryV>, k: int)
    requires
        0 <= k < es.len(),
    ensures
        apply_entries(scenes, es.take(k + 1)) == apply_entry(
            apply_entries(scenes, es.take(k)),
            es[k],
        ),
    decreases k,
{
    reveal_with_fuel(apply_entries, 3);
    if k == 0 {
        assert(es.take(0) =~= Seq::<OffsetEntryV>::empty());
        assert(apply_entries(scenes, es.take(0)) == scenes);
        assert(es.take(1)[0] == es[0]);
        assert(es.take(1).skip(1) =~= Seq::<OffsetEntryV>::empty());
        assert(apply_entries(scenes, es.take(1)) == apply_entries(
            apply_entry(scenes, es[0]),
            Seq::<OffsetEntryV>::empty(),
        ));
        assert(apply_entries(apply_entry(scenes, es[0]), Seq::<OffsetEntryV>::empty())
            == apply_entry(scenes, es[0]));
    } else {
        let a = apply_entry(scenes, es[0]);
        assert(es.take(k + 1)[0] == es[0]);
        assert(es.take(k)[0] == es[0]);
        assert(es.take(k + 1).skip(1) =~= es.skip(1).take(k));
        assert(es.take(k).skip(1) =~= es.skip(1).take(k - 1));
        assert(es.skip(1)[k - 1] == es[k]);
        lemma_apply_entries_snoc(a, es.skip(1), k - 1);
        assert(apply_entries(scenes, es.take(k + 1)) == apply_entries(a, es.skip(1).take(k)));
        assert(apply_entries(scenes, es.take(k)) == apply_entries(a, es.skip(1).take(k - 1)));
    }
}

/// Scene lookup transfers between same-shaped scene lists.
proof fn lemma_shape_scene_lookup(a: Seq<SceneV>, b: Seq<SceneV>, id: Seq<char>)
    requires
        same_shape(a, b),
        scene_ids_unique(a),
        has_scene(a, id),
    ensures
        scene_ids_unique(b),
        has_scene(b, id),
        scene_index(b, id) == scene_index(a, id),
{
    let i = scene_index(a, id);
    assert(0 <= i < a.len() && a[i].id == id);
    assert(scene_ids_unique(b)) by {
        assert forall|x: int, y: int| 0 <= x < y < b.len() implies b[x].id != b[y].id by {
            assert(b[x].id == a[x].id);
            assert(b[y].id == a[y].id);
        }
    }
    assert(b[i].id == id);
    lemma_scene_index_unique(b, id, i);
}

impl AppState {
    /// Merges externally supplied offset metadata into the package.  The
    /// front end reads and parses the source; its outcome — the parsed
    /// entries, or the read/parse failure — is committed here.  Every entry
    /// must apply, else the whole import is aborted with the first entry's
    /// error and no mutation at all; a successful import sets the dirty
    /// flag.
    pub fn import_offsets(&mut self, source: Result<Vec<OffsetEntry>, ImportError>) -> (r: Result<
        (),
        ImportError,
    >)
        requires
            old(self).inv(),
        ensures
            final(self).inv(),
            final(self).package@.pack_name == old(self).package@.pack_name,
            final(self).darkmode == old(self).darkmode,
            final(self).next_id == old(self).next_id,
            final(self).editors == old(self).editors,
            match source {
                Result::Ok(entries) => {
                    &&& r == import_result(old(self).package@.scenes, entry_views(entries@))
                    &&& (r matches Result::Ok(_) ==> final(self).package@.scenes == apply_entries(
                        old(self).package@.scenes,
                        entry_views(entries@),
                    ) && final(self).edited)
                    &&& (r matches Result::Err(_) ==> final(self).package@ == old(self).package@
                        && final(self).edited == old(self).edited)
                },
                Result::Err(e) => {
                    &&& r == Result::<(), ImportError>::Err(e)
                    &&& final(self).package@ == old(self).package@
                    &&& final(self).edited == old(self).edited
                },
            },
    {
        let entries = match source {
            Result::Ok(es) => es,
            Result::Err(e) => {
                return Result::Err(e);
            },
        };
        let ghost orig = scene_views(old(self).package.scenes@);
        let ghost ev = entry_views(entries@);
        let n = entries.len();
        let mut k: usize = 0;
        while k < n
            invariant
                k <= n,
                n == entries@.len(),
                ev == entry_views(entries@),
                source == Result::<Vec<OffsetEntry>, ImportError>::Ok(entries),
                orig == scene_views(old(self).package.scenes@),
                old(self).inv(),
                *self == *old(self),
                forall|j: int| 0 <= j < k ==> entry_applies(orig, #[trigger] ev[j]),
            decreases n - k,
        {
            match find_scene_index(&self.package.scenes, &entries[k].scene) {
                Option::Some(i) => {
                    proof {
                        lemma_scene_index_unique(orig, ev[k as int].scene, i as int);
                    }
                    if self.package.scenes[i].positions.len() != entries[k].offsets.len() {
                        proof {
                            lemma_import_result_err(orig, ev, k as int);
                        }
                        return Result::Err(ImportError::LengthMismatch);
                    }
                },
                Option::None => {
                    proof {
                        lemma_import_result_err(orig, ev, k as int);
                    }
                    return Result::Err(ImportError::UnknownTarget);
                },
            }
            k += 1;
        }
        proof {
            lemma_import_result_ok(orig, ev);
        }
        let mut k: usize = 0;
        while k < n
            invariant
                k <= n,
                n == entries@.len(),
                ev == entry_views(entries@),
                source == Result::<Vec<OffsetEntry>, ImportError>::Ok(entries),
                orig == scene_views(old(self).package.scenes@),
                old(self).inv(),
                forall|j: int| 0 <= j < n ==> entry_applies(orig, #[trigger] ev[j]),
                self.package@.pack_name == old(self).package@.pack_name,
                self.edited == old(self).edited,
                self.darkmode == old(self).darkmode,
                self.next_id == old(self).next_id,
                self.editors == old(self).editors,
                scene_views(self.package.scenes@) == apply_entries(orig, ev.take(k as int)),
                same_shape(orig, scene_views(self.package.scenes@)),
                self.package@.wf(),
            decreases n - k,
        {
            let ghost cur = scene_views(self.package.scenes@);
            proof {
                lemma_shape_scene_lookup(orig, cur, ev[k as int].scene);
            }
            let si = match find_scene_index(&self.package.scenes, &entries[k].scene) {
                Option::Some(i) => i,
                Option::None => {
                    proof {
                        assert(false);
                    }
                    return Result::Err(ImportError::UnknownTarget);
                },
            };
            proof {
                lemma_scene_index_unique(cur, ev[k as int].scene, si as int);
            }
            let mut sc = self.package.scenes.remove(si);
            let m = sc.positions.len();
            let mut nps: Vec<Position> = Vec::new();
            let mut t: usize = 0;
            while t < m
                invariant
                    t <= m,
                    m == sc.positions@.len(),
                    k < entries@.len(),
                    m == entries@[k as int].offsets@.len(),
                    nps@.len() == t,
                    forall|j: int|
                        0 <= j < t ==> (#[trigger] nps@[j])@ == (PositionV {
                            race_key: sc.positions@[j]@.race_key,
                            event: sc.positions@[j]@.event,
                            offset: entries@[k as int].offsets@[j],
                        }),
                decreases m - t,
            {
                let p = &sc.positions[t];
                nps.push(
                    Position {
                        race_key: p.race_key.clone(),
                        event: p.event.clone(),
                        offset: entries[k].offsets[t],
                    },
                );
                t += 1;
            }
            let ghost sc_old_view = sc@;
            sc.positions = nps;
            proof {
                assert(position_views(sc.positions@) =~= with_offsets(
                    sc_old_view.positions,
                    ev[k as int].offsets,
                ));
            }
            self.package.scenes.insert(si, sc);
            k += 1;
            proof {
                let i = si as int;
                assert(scene_views(self.package.scenes@) =~= cur.update(
                    i,
                    SceneV {
                        id: cur[i].id,
                        name: cur[i].name,
                        positions: with_offsets(cur[i].positions, ev[k - 1].offsets),
                        position_infos: cur[i].position_infos,
                        stages: cur[i].stages,
                    },
                ));
                assert(scene_views(self.package.scenes@) == apply_entry(cur, ev[k - 1]));
                lemma_apply_entries_snoc(orig, ev, k - 1);
                assert(scene_views(self.package.scenes@) == apply_entries(
                    orig,
                    ev.take(k as int),
                ));
                assert(same_shape(orig, scene_views(self.package.scenes@)));
                assert(scene_ids_unique(scene_views(self.package.scenes@)));
                assert forall|j: int|
                    0 <= j < scene_views(self.package.scenes@).len() implies (
                #[trigger] scene_views(self.package.scenes@)[j]).wf() by {
                    if j != i {
                        assert(scene_views(self.package.scenes@)[j] == cur[j]);
                    } else {
                        assert(cur[i].wf());
                    }
                }
            }
        }
        self.edited = true;
        proof {
            assert(ev.take(n as int) =~= ev);
        }
        Result::Ok(())
    }
}

} // verus!
