//! Conversion of a tag to another version, either strictly, which fails
//! rather than lose a frame, or by force, which drops what does not fit.

use vstd::prelude::*;
use vstd::string::*;
use vstd::utf8::encode_utf8;
use crate::error::{strings_view, TagError, TagErrorView};
use crate::seq_lemmas::{lemma_filter_all, lemma_filter_take_step};
use crate::edit::{distinct_slots, well_formed};
use crate::frame::{is_structured, kind_of_id, Frame, FrameView};
use crate::query::same_slot;
use crate::tag::{frames_view, Tag, TagView};
use crate::version::{ConvertOpt, Version};

verus! {

/// The identifier under which a frame made under `id` stands in a tag of
/// version `version`, as the tag codec `id3` gives it; `None` where that
/// version has no identifier for the frame. The table behind it is the
/// codec's and is not written out here.
pub uninterp spec fn id_for_version(id: Seq<char>, version: Version) -> Option<Seq<char>>;

/// Whether `id` has a length that the tag codec takes for a frame
/// identifier: three or four bytes.
pub open spec fn id_length_ok(id: Seq<char>) -> bool {
    encode_utf8(id).len() == 3 || encode_utf8(id).len() == 4
}

/// Whether `id` is four bytes long, as the identifiers of versions 2.3 and
/// 2.4 are.
pub open spec fn is_four_bytes(id: Seq<char>) -> bool {
    encode_utf8(id).len() == 4
}

/// Whether a frame under `id` can stand in a tag of version `version`.
pub open spec fn representable(id: Seq<char>, version: Version) -> bool {
    id_length_ok(id) && id_for_version(id, version) is Some
}

/// Asks the tag codec under which identifier a frame stands in a tag of
/// version `version`: calls `id3::Frame::id_for_version` on the frame that
/// `id3::Frame::text` makes under `id`.
///
/// The contract is taken on trust. It claims that what comes back is
/// [`id_for_version`] of `id` and `version`, that is, that the codec's
/// answer depends on nothing else, and that for versions 2.3 and 2.4 an
/// identifier of four bytes comes back as it is: the codec keeps such an
/// identifier as given and hands it out for both versions. Of version 2.2
/// and of identifiers of three bytes it does not say which identifier comes
/// back. `id3::Frame::text` panics on an identifier that is not three or
/// four bytes long, so the caller has to rule that out.
#[verifier::external_body]
fn codec_id_for_version(id: &str, version: Version) -> (r: Option<String>)
    requires
        id_length_ok(id@),
    ensures
        match r {
            Some(s) => id_for_version(id@, version) == Some(s@),
            None => id_for_version(id@, version) is None,
        },
        is_four_bytes(id@) && version != Version::Id3v22 ==> r is Some && r->0@ == id@,
{
    let version = match version {
        Version::Id3v22 => id3::Version::Id3v22,
        Version::Id3v23 => id3::Version::Id3v23,
        Version::Id3v24 => id3::Version::Id3v24,
    };
    id3::Frame::text(id, "").id_for_version(version).map(String::from)
}

/// Returns whether a frame under `id` can stand in a tag of version
/// `version`. An identifier that is not three or four bytes long stands in
/// none; one of four bytes stands in every tag of version 2.3 or 2.4.
pub fn has_counterpart(id: &str, version: Version) -> (b: bool)
    ensures
        b == representable(id@, version),
        is_four_bytes(id@) && version != Version::Id3v22 ==> b,
{
    let n: usize = id.as_bytes().len();
    if n != 3 && n != 4 {
        false
    } else {
        codec_id_for_version(id, version).is_some()
    }
}

/// What `fits` says of the frame at position `i`: whether it fits. A
/// position that `fits` does not reach counts as not fitting.
pub open spec fn fit_at(fits: Seq<bool>, i: int) -> bool {
    0 <= i < fits.len() && fits[i]
}

/// The positions below `n` of which `fits` says `keep`, in rising order.
pub open spec fn positions(fits: Seq<bool>, keep: bool, n: int) -> Seq<int>
    decreases n,
{
    if n <= 0 {
        Seq::empty()
    } else if fit_at(fits, n - 1) == keep {
        positions(fits, keep, n - 1).push(n - 1)
    } else {
        positions(fits, keep, n - 1)
    }
}

/// The frames of which `fits` says that they fit, in their order.
pub open spec fn fitting(frames: Seq<FrameView>, fits: Seq<bool>) -> Seq<FrameView> {
    positions(fits, true, frames.len() as int).map_values(|i: int| frames[i])
}

/// The identifiers of the frames of which `fits` says that they do not fit,
/// in the order of the frames.
pub open spec fn unfit_ids(frames: Seq<FrameView>, fits: Seq<bool>) -> Seq<Seq<char>> {
    positions(fits, false, frames.len() as int).map_values(|i: int| frames[i].id)
}

/// Whether `fits` says of every frame of `frames` that it fits.
pub open spec fn all_fit(frames: Seq<FrameView>, fits: Seq<bool>) -> bool {
    forall|i: int| 0 <= i < frames.len() ==> fit_at(fits, i)
}

/// What converting `tag` to `target` yields, where `fits` says of each
/// frame whether it fits the target. A tag that is at the target already is
/// returned as it is. Otherwise a forced conversion keeps exactly the frames
/// that fit, and a strict one keeps all frames or fails, naming every frame
/// that does not fit.
pub open spec fn conversion(tag: TagView, target: Version, force: bool, fits: Seq<bool>) -> Result<
    TagView,
    TagErrorView,
> {
    if tag.version == target {
        Ok(tag)
    } else if force {
        Ok(TagView { version: target, frames: fitting(tag.frames, fits) })
    } else if all_fit(tag.frames, fits) {
        Ok(TagView { version: target, frames: tag.frames })
    } else {
        Err(
            TagErrorView::IncompatibleFrames {
                from: tag.version,
                to: target,
                ids: unfit_ids(tag.frames, fits),
            },
        )
    }
}

/// What the tag codec says of each frame of `frames`: whether it can stand
/// in a tag of version `version`.
pub open spec fn fit_mask(frames: Seq<FrameView>, version: Version) -> Seq<bool> {
    Seq::new(frames.len(), |i: int| representable(frames[i].id, version))
}

/// Where `fits` says of every frame below `n` that it fits, the fitting
/// positions below `n` are all of them, and none is unfit.
proof fn lemma_positions_all(fits: Seq<bool>, n: int)
    requires
        0 <= n,
        forall|i: int| 0 <= i < n ==> fit_at(fits, i),
    ensures
        positions(fits, true, n) == Seq::new(n as nat, |i: int| i),
        positions(fits, false, n).len() == 0,
    decreases n,
{
    if n > 0 {
        lemma_positions_all(fits, n - 1);
        assert(positions(fits, true, n) =~= Seq::new(n as nat, |i: int| i));
    }
}

/// The positions that [`positions`] lists lie below `n`, and some position
/// is unfit exactly where not every one fits.
proof fn lemma_positions_bounds(fits: Seq<bool>, keep: bool, n: int)
    requires
        0 <= n,
    ensures
        forall|k: int|
            0 <= k < positions(fits, keep, n).len() ==> 0 <= #[trigger] positions(fits, keep, n)[k]
                < n,
        keep == false ==> (positions(fits, keep, n).len() == 0 <==> forall|i: int|
            0 <= i < n ==> fit_at(fits, i)),
    decreases n,
{
    if n > 0 {
        lemma_positions_bounds(fits, keep, n - 1);
        if !keep && positions(fits, keep, n).len() == 0 {
            assert forall|i: int| 0 <= i < n implies fit_at(fits, i) by {
                if i == n - 1 {
                } else {
                    assert(positions(fits, keep, n - 1).len() == 0);
                }
            }
        }
    }
}

/// The positions that [`positions`] lists rise from one to the next.
proof fn lemma_positions_rise(fits: Seq<bool>, keep: bool, n: int)
    requires
        0 <= n,
    ensures
        ({
            let at = positions(fits, keep, n);
            forall|a: int, b: int|
                0 <= a < b < at.len() ==> 0 <= #[trigger] at[a] < #[trigger] at[b] < n
        }),
    decreases n,
{
    if n > 0 {
        lemma_positions_rise(fits, keep, n - 1);
        lemma_positions_bounds(fits, keep, n - 1);
        let before = positions(fits, keep, n - 1);
        let at = positions(fits, keep, n);
        assert forall|a: int, b: int| 0 <= a < b < at.len() implies 0 <= #[trigger] at[a]
            < #[trigger] at[b] < n by {
            if b < before.len() {
                assert(at[a] == before[a] && at[b] == before[b]);
            } else {
                assert(at[a] == before[a]);
                assert(0 <= before[a] < n - 1);
                assert(at[b] == n - 1);
            }
        }
    }
}

/// Converting keeps a tag well formed, and keeps its slots distinct: the
/// frames of the result stood in the tag, in the same order.
pub proof fn law_convert_keeps_well_formed(
    tag: TagView,
    target: Version,
    force: bool,
    fits: Seq<bool>,
)
    ensures
        conversion(tag, target, force, fits) matches Ok(t) ==> {
            &&& well_formed(tag.frames) ==> well_formed(t.frames)
            &&& distinct_slots(tag.frames) ==> distinct_slots(t.frames)
        },
{
    let n = tag.frames.len() as int;
    lemma_positions_rise(fits, true, n);
    let kept = fitting(tag.frames, fits);
    let at = positions(fits, true, n);
    assert forall|i: int, j: int| 0 <= i < j < kept.len() implies kept[i] == tag.frames[at[i]]
        && kept[j] == tag.frames[at[j]] && 0 <= at[i] < at[j] < n by {}
    if well_formed(tag.frames) {
        assert forall|i: int, j: int| 0 <= i < j < kept.len() implies !(is_structured(
            kind_of_id(kept[i].id),
        ) && same_slot(kept[i], kept[j])) by {
            assert(kept[i] == tag.frames[at[i]] && kept[j] == tag.frames[at[j]]);
        }
    }
    if distinct_slots(tag.frames) {
        assert forall|i: int, j: int| 0 <= i < j < kept.len() implies !same_slot(
            kept[i],
            kept[j],
        ) by {
            assert(kept[i] == tag.frames[at[i]] && kept[j] == tag.frames[at[j]]);
        }
    }
}

/// Converts the tag to `target_version`, where `fits` says of each frame
/// whether it fits that version; a frame that `fits` does not reach counts
/// as not fitting.
///
/// A tag that is at the target already is copied as it is. Otherwise, with
/// `force`, the result holds exactly the frames that fit, in their order,
/// and the call succeeds. Without `force` the result holds all frames, or
/// the call fails with `IncompatibleFrames`, which names every frame that
/// does not fit.
pub fn convert_with(tag: &Tag, target_version: Version, force: bool, fits: &Vec<bool>) -> (r:
    Result<Tag, TagError>)
    ensures
        match r {
            Ok(t) => conversion(tag@, target_version, force, fits@) == Ok::<TagView, TagErrorView>(
                t@,
            ),
            Err(e) => conversion(tag@, target_version, force, fits@) == Err::<
                TagView,
                TagErrorView,
            >(e@),
        },
        r matches Ok(t) ==> well_formed(tag@.frames) ==> well_formed(t@.frames),
{
    proof {
        law_convert_keeps_well_formed(tag@, target_version, force, fits@);
    }
    if tag.version == target_version {
        return Ok(tag.clone());
    }
    let mut frames: Vec<Frame> = Vec::new();
    let mut ids: Vec<String> = Vec::new();
    let mut i: usize = 0;
    while i < tag.frames.len()
        invariant
            0 <= i <= tag.frames.len(),
            frames_view(frames@) == positions(fits@, true, i as int).map_values(
                |k: int| tag@.frames[k],
            ),
            strings_view(ids@) == positions(fits@, false, i as int).map_values(
                |k: int| tag@.frames[k].id,
            ),
        decreases tag.frames.len() - i,
    {
        let fit = i < fits.len() && fits[i];
        assert(fit == fit_at(fits@, i as int));
        assert(tag@.frames[i as int] == tag.frames[i as int]@);
        if fit {
            let ghost before = frames@;
            frames.push(tag.frames[i].clone());
            assert(frames_view(frames@) =~= frames_view(before).push(tag@.frames[i as int]));
        } else {
            let ghost before = ids@;
            ids.push(tag.frames[i].id.clone());
            assert(strings_view(ids@) =~= strings_view(before).push(tag@.frames[i as int].id));
        }
        i += 1;
        proof {
            assert(positions(fits@, true, i as int).map_values(|k: int| tag@.frames[k])
                =~= frames_view(frames@));
            assert(positions(fits@, false, i as int).map_values(|k: int| tag@.frames[k].id)
                =~= strings_view(ids@));
        }
    }
    proof {
        lemma_positions_bounds(fits@, false, tag@.frames.len() as int);
    }
    if !force && ids.len() > 0 {
        return Err(TagError::IncompatibleFrames { from: tag.version, to: target_version, ids });
    }
    proof {
        if !force {
            lemma_positions_all(fits@, tag@.frames.len() as int);
            assert(frames_view(frames@) =~= tag@.frames);
        }
    }
    Ok(Tag { version: target_version, frames })
}

/// Asks the tag codec of each frame of the tag whether it can stand in a
/// tag of version `version`.
pub fn frames_fit(tag: &Tag, version: Version) -> (fits: Vec<bool>)
    ensures
        fits@ == fit_mask(tag@.frames, version),
        version != Version::Id3v22 ==> forall|i: int|
            0 <= i < tag@.frames.len() && is_four_bytes((#[trigger] tag@.frames[i]).id)
                ==> fits@[i],
{
    let mut fits: Vec<bool> = Vec::new();
    let mut i: usize = 0;
    while i < tag.frames.len()
        invariant
            0 <= i <= tag.frames.len(),
            fits@ == fit_mask(tag@.frames, version).take(i as int),
            version != Version::Id3v22 ==> forall|k: int|
                0 <= k < i && is_four_bytes((#[trigger] tag@.frames[k]).id) ==> fits@[k],
        decreases tag.frames.len() - i,
    {
        assert(tag@.frames[i as int] == tag.frames[i as int]@);
        fits.push(has_counterpart(tag.frames[i].id.as_str(), version));
        i += 1;
        assert(fits@ =~= fit_mask(tag@.frames, version).take(i as int));
    }
    assert(fit_mask(tag@.frames, version).take(tag.frames.len() as int) =~= fit_mask(
        tag@.frames,
        version,
    ));
    fits
}

/// Makes a tag of version `target_version` from the tag.
///
/// A tag that is at the target already is copied as it is. Otherwise, with
/// `force`, the result holds exactly the frames that can stand in the target
/// version, in their order, and the call succeeds. Without `force` the
/// result holds all frames, and the call fails with `IncompatibleFrames`,
/// naming each of them, exactly when some frame cannot stand in the target
/// version. A conversion to version 2.3 or 2.4 of a tag whose identifiers
/// are all four bytes long never fails and keeps every frame.
pub fn tag_with_version_from(tag: &Tag, target_version: Version, force: bool) -> (r: Result<
    Tag,
    TagError,
>)
    ensures
        match r {
            Ok(t) => conversion(
                tag@,
                target_version,
                force,
                fit_mask(tag@.frames, target_version),
            ) == Ok::<TagView, TagErrorView>(t@),
            Err(e) => conversion(
                tag@,
                target_version,
                force,
                fit_mask(tag@.frames, target_version),
            ) == Err::<TagView, TagErrorView>(e@),
        },
        r is Err <==> tag@.version != target_version && !force && exists|i: int|
            0 <= i < tag@.frames.len() && !representable(
                (#[trigger] tag@.frames[i]).id,
                target_version,
            ),
        r matches Ok(t) ==> t@.version == target_version,
        r matches Ok(t) ==> tag@.version != target_version ==> t@.frames == tag@.frames.filter(
            |f: FrameView| representable(f.id, target_version),
        ),
        r matches Ok(t) ==> !force ==> t@.frames == tag@.frames,
        r matches Ok(t) ==> well_formed(tag@.frames) ==> well_formed(t@.frames),
        r matches Err(e) ==> e@ == (TagErrorView::IncompatibleFrames {
            from: tag@.version,
            to: target_version,
            ids: tag@.frames.filter(|f: FrameView| !representable(f.id, target_version)).map_values(
                |f: FrameView| f.id,
            ),
        }),
        target_version != Version::Id3v22 && (forall|i: int|
            0 <= i < tag@.frames.len() ==> is_four_bytes((#[trigger] tag@.frames[i]).id))
            ==> r is Ok && r->Ok_0@.frames == tag@.frames,
{
    let fits = frames_fit(tag, target_version);
    proof {
        lemma_conversion_by_codec(tag@, target_version, force);
        if target_version != Version::Id3v22 && (forall|i: int|
            0 <= i < tag@.frames.len() ==> is_four_bytes((#[trigger] tag@.frames[i]).id)) {
            assert forall|i: int| 0 <= i < tag@.frames.len() implies fit_at(fits@, i) by {
                assert(is_four_bytes(tag@.frames[i].id));
            }
            assert(all_fit(tag@.frames, fits@));
            assert forall|i: int| 0 <= i < tag@.frames.len() implies representable(
                (#[trigger] tag@.frames[i]).id,
                target_version,
            ) by {
                assert(fit_at(fits@, i));
            }
            lemma_filter_all(tag@.frames, |f: FrameView| representable(f.id, target_version));
        }
    }
    convert_with(tag, target_version, force, &fits)
}

/// What [`conversion`] amounts to where the tag codec itself says which
/// frames fit: a strict conversion fails exactly when the versions differ
/// and some frame cannot stand in the target version; a conversion that
/// succeeds on a tag of another version keeps exactly the frames that can,
/// in their order, which in a strict conversion are all.
pub proof fn lemma_conversion_by_codec(tag: TagView, target: Version, force: bool)
    ensures
        conversion(tag, target, force, fit_mask(tag.frames, target)) is Err <==> tag.version
            != target && !force && exists|i: int|
            0 <= i < tag.frames.len() && !representable((#[trigger] tag.frames[i]).id, target),
        conversion(tag, target, force, fit_mask(tag.frames, target)) matches Ok(t) ==> {
            &&& t.version == target
            &&& tag.version != target ==> t.frames == tag.frames.filter(
                |f: FrameView| representable(f.id, target),
            )
            &&& !force ==> t.frames == tag.frames
        },
        conversion(tag, target, force, fit_mask(tag.frames, target)) matches Err(e) ==> e == (
        TagErrorView::IncompatibleFrames {
            from: tag.version,
            to: target,
            ids: tag.frames.filter(|f: FrameView| !representable(f.id, target)).map_values(
                |f: FrameView| f.id,
            ),
        }),
{
    let fits = fit_mask(tag.frames, target);
    let pred = |f: FrameView| representable(f.id, target);
    lemma_fitting_is_filter(tag.frames, fits, pred, tag.frames.len() as int);
    lemma_unfit_is_filter(
        tag.frames,
        fits,
        |f: FrameView| !representable(f.id, target),
        tag.frames.len() as int,
    );
    assert(tag.frames.take(tag.frames.len() as int) =~= tag.frames);
    if all_fit(tag.frames, fits) {
        assert forall|i: int| 0 <= i < tag.frames.len() implies pred(#[trigger] tag.frames[i]) by {
            assert(fit_at(fits, i));
        }
        lemma_filter_all(tag.frames, pred);
    } else {
        let i = choose|i: int| 0 <= i < tag.frames.len() && !fit_at(fits, i);
        assert(!representable(tag.frames[i].id, target));
    }
    if exists|i: int|
        0 <= i < tag.frames.len() && !representable((#[trigger] tag.frames[i]).id, target) {
        let i = choose|i: int|
            0 <= i < tag.frames.len() && !representable((#[trigger] tag.frames[i]).id, target);
        assert(!fit_at(fits, i));
    }
}

/// Where `fits` says of each frame what `pred` says of it, the frames that
/// fit among the first `n` are those that pass `pred`.
proof fn lemma_fitting_is_filter(
    frames: Seq<FrameView>,
    fits: Seq<bool>,
    pred: spec_fn(FrameView) -> bool,
    n: int,
)
    requires
        0 <= n <= frames.len(),
        fits.len() == frames.len(),
        forall|i: int| 0 <= i < frames.len() ==> fits[i] == pred(#[trigger] frames[i]),
    ensures
        positions(fits, true, n).map_values(|i: int| frames[i]) == frames.take(n).filter(pred),
    decreases n,
{
    if n == 0 {
        lemma_filter_all(frames.take(0), pred);
        assert(positions(fits, true, 0).map_values(|i: int| frames[i]) =~= frames.take(0));
    } else {
        lemma_fitting_is_filter(frames, fits, pred, n - 1);
        lemma_filter_take_step(frames, pred, n - 1);
        assert(fit_at(fits, n - 1) == pred(frames[n - 1]));
        let prev = positions(fits, true, n - 1);
        if pred(frames[n - 1]) {
            assert(prev.push(n - 1).map_values(|i: int| frames[i]) =~= prev.map_values(
                |i: int| frames[i],
            ).push(frames[n - 1]));
        }
    }
}

/// Where `fits` says of each frame the contrary of what `pred` says of it,
/// the identifiers of the unfit frames among the first `n` are those of the
/// frames that pass `pred`.
proof fn lemma_unfit_is_filter(
    frames: Seq<FrameView>,
    fits: Seq<bool>,
    pred: spec_fn(FrameView) -> bool,
    n: int,
)
    requires
        0 <= n <= frames.len(),
        fits.len() == frames.len(),
        forall|i: int| 0 <= i < frames.len() ==> fits[i] == !pred(#[trigger] frames[i]),
    ensures
        positions(fits, false, n).map_values(|i: int| frames[i].id) == frames.take(n).filter(
            pred,
        ).map_values(|f: FrameView| f.id),
    decreases n,
{
    let id_at = |i: int| frames[i].id;
    let id_of = |f: FrameView| f.id;
    if n == 0 {
        lemma_filter_all(frames.take(0), pred);
        assert(positions(fits, false, 0).map_values(id_at) =~= frames.take(0).filter(
            pred,
        ).map_values(id_of));
    } else {
        lemma_unfit_is_filter(frames, fits, pred, n - 1);
        lemma_filter_take_step(frames, pred, n - 1);
        assert(fit_at(fits, n - 1) == !pred(frames[n - 1]));
        let prev = positions(fits, false, n - 1);
        if pred(frames[n - 1]) {
            assert(prev.push(n - 1).map_values(id_at) =~= prev.map_values(id_at).push(
                frames[n - 1].id,
            ));
            frames.take(n - 1).filter(pred).lemma_push_map_commute(id_of, frames[n - 1]);
        }
    }
}

/// Converts the tag in place as `opt` asks, and returns whether anything
/// was converted: `false` exactly when the tag was at the asked version
/// already. Where the conversion fails the tag is left as it was.
pub fn convert_tag(tag: &mut Tag, opt: ConvertOpt) -> (r: Result<bool, TagError>)
    ensures
        match r {
            Ok(changed) => {
                &&& changed == (old(tag)@.version != opt.target_spec())
                &&& conversion(
                    old(tag)@,
                    opt.target_spec(),
                    opt.force_spec(),
                    fit_mask(old(tag)@.frames, opt.target_spec()),
                ) == Ok::<TagView, TagErrorView>(final(tag)@)
            },
            Err(e) => {
                &&& final(tag)@ == old(tag)@
                &&& conversion(
                    old(tag)@,
                    opt.target_spec(),
                    opt.force_spec(),
                    fit_mask(old(tag)@.frames, opt.target_spec()),
                ) == Err::<TagView, TagErrorView>(e@)
            },
        },
        well_formed(old(tag)@.frames) ==> well_formed(final(tag)@.frames),
{
    let target = opt.target();
    if tag.version == target {
        return Ok(false);
    }
    match tag_with_version_from(tag, target, opt.force()) {
        Ok(converted) => {
            *tag = converted;
            Ok(true)
        },
        Err(e) => Err(e),
    }
}

} // verus!
