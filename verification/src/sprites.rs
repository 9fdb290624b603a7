//! Sprite sets: the three ordered frame sequences the character animates
//! from, and the pure part of the loader that builds them.
//!
//! The caller scans the three fixed category directories (`idle`, `run`,
//! `click`), decodes and optionally flips each image file, and hands the
//! outcomes in here: filenames are ordered lexicographically, a failed
//! decode or flip discards the whole attempt, and a set is only produced
//! when every category has at least one frame.

use vstd::prelude::*;
use crate::error::LoadError;

verus! {

/// The three fixed animation categories, also the names of the
/// subdirectories frames are loaded from.
#[derive(Copy, Clone, Debug, PartialEq, Eq, Structural)]
pub enum SpriteCategory {
    Idle,
    Run,
    Click,
}

/// The triple of ordered frame sequences, one per category.  Frames are
/// opaque to the engine; the caller instantiates `F` with its displayable
/// bitmap handle.
pub struct SpriteSet<F> {
    pub idle: Vec<F>,
    pub run: Vec<F>,
    pub click: Vec<F>,
}

impl<F> SpriteSet<F> {
    /// A sprite set is usable only when every category has a frame: an
    /// empty category at load time is a load failure, not an
    /// empty-animation state.
    pub open spec fn wf(self) -> bool {
        &&& self.idle@.len() > 0
        &&& self.run@.len() > 0
        &&& self.click@.len() > 0
    }

    /// The frame sequence of one category.
    pub open spec fn seq_of(self, category: SpriteCategory) -> Seq<F> {
        match category {
            SpriteCategory::Idle => self.idle@,
            SpriteCategory::Run => self.run@,
            SpriteCategory::Click => self.click@,
        }
    }

    /// Borrows one frame of one category.
    pub fn get(&self, category: SpriteCategory, index: usize) -> (frame: &F)
        requires
            index < self.seq_of(category).len(),
        ensures
            *frame == self.seq_of(category)[index as int],
    {
        match category {
            SpriteCategory::Idle => &self.idle[index],
            SpriteCategory::Run => &self.run[index],
            SpriteCategory::Click => &self.click[index],
        }
    }
}

/// Folds the decode outcomes of one category's files, in order, into the
/// category's frame sequence.  The first failure discards the whole
/// category, so a set never holds a partially decoded sequence.
#[verifier::loop_isolation(false)]
pub fn collect_frames<F>(outcomes: Vec<Result<F, LoadError>>) -> (r: Result<Vec<F>, LoadError>)
    ensures
        r is Ok <==> (forall|i: int| 0 <= i < outcomes@.len() ==> outcomes@[i] is Ok),
        r matches Ok(frames) ==> {
            &&& frames@.len() == outcomes@.len()
            &&& forall|i: int| 0 <= i < outcomes@.len() ==> frames@[i] == outcomes@[i]->Ok_0
        },
        r matches Err(e) ==> exists|i: int| {
            &&& 0 <= i < outcomes@.len()
            &&& outcomes@[i] == Err::<F, LoadError>(e)
            &&& forall|j: int| 0 <= j < i ==> (#[trigger] outcomes@[j]) is Ok
        },
{
    let ghost all = outcomes@;
    let mut rest = outcomes;
    let mut frames: Vec<F> = Vec::new();
    loop
        invariant
            frames@.len() + rest@.len() == all.len(),
            rest@ == all.subrange(frames@.len() as int, all.len() as int),
            forall|i: int| 0 <= i < frames@.len() ==> ((#[trigger] all[i]) is Ok && frames@[i]
                == all[i]->Ok_0),
        decreases rest@.len(),
    {
        if rest.len() == 0 {
            break;
        }
        let ghost taken = frames@.len() as int;
        match rest.remove(0) {
            Ok(frame) => {
                assert(all[taken] is Ok);
                frames.push(frame);
            },
            Err(e) => {
                proof {
                    assert(all[taken] == Err::<F, LoadError>(e));
                    assert(forall|j: int| 0 <= j < taken ==> (#[trigger] all[j]) is Ok);
                }
                return Err(e);
            },
        }
    }
    Ok(frames)
}

/// Lexicographic order on filenames as character sequences, compared by
/// scalar value.  This is the loader's only ordering guarantee: names are
/// compared as strings, never numerically, so `"10.png"` sorts before
/// `"2.png"` and playback order relies on zero-padded indices.
pub open spec fn lex_le(a: Seq<char>, b: Seq<char>) -> bool
    decreases a.len(),
{
    if a.len() == 0 {
        true
    } else if b.len() == 0 {
        false
    } else if (a[0] as u32) == (b[0] as u32) {
        lex_le(a.drop_first(), b.drop_first())
    } else {
        (a[0] as u32) < (b[0] as u32)
    }
}

proof fn lemma_lex_le_total(a: Seq<char>, b: Seq<char>)
    ensures
        lex_le(a, b) || lex_le(b, a),
    decreases a.len(),
{
    if a.len() > 0 && b.len() > 0 && (a[0] as u32) == (b[0] as u32) {
        lemma_lex_le_total(a.drop_first(), b.drop_first());
    }
}

proof fn lemma_lex_le_trans(a: Seq<char>, b: Seq<char>, c: Seq<char>)
    requires
        lex_le(a, b),
        lex_le(b, c),
    ensures
        lex_le(a, c),
    decreases a.len(),
{
    if a.len() > 0 && b.len() > 0 && c.len() > 0 && (a[0] as u32) == (b[0] as u32) && (b[0] as u32)
        == (c[0] as u32) {
        lemma_lex_le_trans(a.drop_first(), b.drop_first(), c.drop_first());
    }
}

/// Relies on str's `Ord`: strings compare lexicographically by byte, and
/// UTF-8 byte order agrees with comparing the character sequences by
/// scalar value.
#[verifier::external_body]
fn str_le(a: &String, b: &String) -> (r: bool)
    ensures
        r == lex_le(a@, b@),
{
    a <= b
}

/// Sorts one category's filenames lexicographically, the order the frames
/// will play in.
#[verifier::loop_isolation(false)]
pub fn sort_frame_names(names: Vec<String>) -> (r: Vec<String>)
    ensures
        r@.to_multiset() == names@.to_multiset(),
        forall|i: int, j: int| 0 <= i < j < r@.len() ==> lex_le(#[trigger] r@[i]@, #[trigger] r@[j]@),
{
    broadcast use vstd::seq_lib::group_to_multiset_ensures;

    let mut rest = names;
    let mut out: Vec<String> = Vec::new();
    loop
        invariant
            out@.to_multiset().add(rest@.to_multiset()) == names@.to_multiset(),
            forall|i: int, j: int| 0 <= i < j < out@.len() ==> lex_le(
                #[trigger] out@[i]@,
                #[trigger] out@[j]@,
            ),
        decreases rest@.len(),
    {
        if rest.len() == 0 {
            break;
        }
        let ghost rest0 = rest@;
        let x = rest.remove(0);
        let mut lo: usize = 0;
        while lo < out.len() && str_le(&out[lo], &x)
            invariant
                lo <= out@.len(),
                forall|k: int| 0 <= k < lo ==> lex_le(#[trigger] out@[k]@, x@),
            decreases out@.len() - lo,
        {
            lo = lo + 1;
        }
        let ghost out0 = out@;
        out.insert(lo, x);
        proof {
            vstd::seq_lib::to_multiset_insert(out0, lo as int, x);
            vstd::seq_lib::to_multiset_remove(rest0, 0);
            assert(out@.to_multiset().add(rest@.to_multiset()) =~= out0.to_multiset().add(
                rest0.to_multiset(),
            ));
            assert forall|i: int, j: int| 0 <= i < j < out@.len() implies lex_le(
                #[trigger] out@[i]@,
                #[trigger] out@[j]@,
            ) by {
                let l = lo as int;
                if j < l {
                    assert(out@[i] == out0[i] && out@[j] == out0[j]);
                } else if i < l && j == l {
                    assert(out@[i] == out0[i] && out@[j] == x);
                } else if i < l && j > l {
                    assert(out@[i] == out0[i] && out@[j] == out0[j - 1]);
                } else if i == l {
                    assert(out@[i] == x && out@[j] == out0[j - 1]);
                    lemma_lex_le_total(out0[l]@, x@);
                    if j - 1 > l {
                        lemma_lex_le_trans(x@, out0[l]@, out0[j - 1]@);
                    }
                } else {
                    assert(out@[i] == out0[i - 1] && out@[j] == out0[j - 1]);
                }
            }
        }
    }
    out
}

/// Builds the set from the three already-decoded sequences, in the fixed
/// category order.  Succeeds exactly when every category is non-empty and
/// otherwise names the first empty one.
pub fn assemble_sprite_set<F>(idle: Vec<F>, run: Vec<F>, click: Vec<F>) -> (r: Result<
    SpriteSet<F>,
    LoadError,
>)
    ensures
        idle@.len() == 0 ==> r == Err::<SpriteSet<F>, LoadError>(
            LoadError::MissingCategory(SpriteCategory::Idle),
        ),
        idle@.len() > 0 && run@.len() == 0 ==> r == Err::<SpriteSet<F>, LoadError>(
            LoadError::MissingCategory(SpriteCategory::Run),
        ),
        idle@.len() > 0 && run@.len() > 0 && click@.len() == 0 ==> r == Err::<
            SpriteSet<F>,
            LoadError,
        >(LoadError::MissingCategory(SpriteCategory::Click)),
        idle@.len() > 0 && run@.len() > 0 && click@.len() > 0 ==> (r matches Ok(s) && s.wf()
            && s.idle@ == idle@ && s.run@ == run@ && s.click@ == click@),
{
    if idle.len() == 0 {
        Err(LoadError::MissingCategory(SpriteCategory::Idle))
    } else if run.len() == 0 {
        Err(LoadError::MissingCategory(SpriteCategory::Run))
    } else if click.len() == 0 {
        Err(LoadError::MissingCategory(SpriteCategory::Click))
    } else {
        Ok(SpriteSet { idle, run, click })
    }
}

} // verus!
