//! Texture deltas: what the UI engine asks the rasterizer to upload before
//! painting and to free after it, and how deltas of several frames add up.

use vstd::prelude::*;

verus! {

/// The name of a texture.
#[derive(Clone, Copy, Debug, PartialEq, Eq, Structural)]
pub enum TextureId {
    /// A texture that the UI engine allocated.
    Managed(u64),
    /// A texture that the user of the UI engine brought.
    User(u64),
}

/// The texture delta of the UI engine. Its images are of no concern here:
/// it is handled as a whole and known only by the names `uploads` and
/// `releases`.
#[verifier::external_type_specification]
#[verifier::external_body]
pub struct ExTexturesDelta(egui::TexturesDelta);

/// The textures that a delta sets, in order: the ids of the entries of its
/// field `set`.
pub uninterp spec fn uploads(delta: egui::TexturesDelta) -> Seq<TextureId>;

/// The textures that a delta frees, in order: its field `free`.
pub uninterp spec fn releases(delta: egui::TexturesDelta) -> Seq<TextureId>;

/// `TexturesDelta::default` of egui: a delta that sets and frees nothing.
#[verifier::external_body]
pub(crate) fn empty_delta() -> (delta: egui::TexturesDelta)
    ensures
        uploads(delta) == Seq::<TextureId>::empty(),
        releases(delta) == Seq::<TextureId>::empty(),
{
    egui::TexturesDelta::default()
}

/// `TexturesDelta::append` of egui: moves the entries of `newer` behind
/// those of `older`, the textures to set behind those to set and the
/// textures to free behind those to free.
#[verifier::external_body]
pub(crate) fn append_delta(older: &mut egui::TexturesDelta, newer: egui::TexturesDelta)
    ensures
        uploads(*final(older)) == uploads(*old(older)) + uploads(newer),
        releases(*final(older)) == releases(*old(older)) + releases(newer),
{
    older.append(newer)
}

/// `TexturesDelta::clear` of egui: empties both lists of the delta.
#[verifier::external_body]
pub(crate) fn clear_delta(delta: &mut egui::TexturesDelta)
    ensures
        uploads(*final(delta)) == Seq::<TextureId>::empty(),
        releases(*final(delta)) == Seq::<TextureId>::empty(),
{
    delta.clear()
}

/// What a texture delta asks of the rasterizer.
pub struct DeltaView {
    /// The textures to set before painting, in order.
    pub uploads: Seq<TextureId>,
    /// The textures to free after painting, in order.
    pub releases: Seq<TextureId>,
}

/// What the delta of the UI engine asks of the rasterizer.
pub open spec fn delta_view(delta: egui::TexturesDelta) -> DeltaView {
    DeltaView { uploads: uploads(delta), releases: releases(delta) }
}

impl DeltaView {
    /// The delta that asks for nothing.
    pub open spec fn empty() -> Self {
        DeltaView { uploads: Seq::empty(), releases: Seq::empty() }
    }

    /// This delta with a newer one added: what either sets is set, what
    /// either frees is freed, the older entries first.
    pub open spec fn merged(self, newer: Self) -> Self {
        DeltaView {
            uploads: self.uploads + newer.uploads,
            releases: self.releases + newer.releases,
        }
    }

    /// The textures that a rasterizer holds after a frame with this delta,
    /// if it held `live` before: the textures to set are set, the frame is
    /// painted, and then the textures to free are freed.
    pub open spec fn applied(self, live: Set<TextureId>) -> Set<TextureId> {
        (live + self.uploads.to_set()) - self.releases.to_set()
    }

    /// Whether the newer delta sets again a texture that this one frees,
    /// without freeing it itself.
    pub open spec fn revived_by(self, newer: Self) -> bool {
        exists|id: TextureId|
            self.releases.contains(id) && newer.uploads.contains(id) && !newer.releases.contains(
                id,
            )
    }
}

/// An element is in a concatenation where it is in one of the two parts.
proof fn lemma_concat_contains(a: Seq<TextureId>, b: Seq<TextureId>, id: TextureId)
    ensures
        (a + b).contains(id) <==> a.contains(id) || b.contains(id),
{
    if a.contains(id) {
        let i = choose|i: int| 0 <= i < a.len() && a[i] == id;
        assert((a + b)[i] == id);
    }
    if b.contains(id) {
        let i = choose|i: int| 0 <= i < b.len() && b[i] == id;
        assert((a + b)[a.len() + i] == id);
    }
    if (a + b).contains(id) {
        let i = choose|i: int| 0 <= i < (a + b).len() && (a + b)[i] == id;
        if i < a.len() {
            assert(a[i] == id);
        } else {
            assert(b[i - a.len()] == id);
        }
    }
}

/// Merging deltas is associative: it does not matter which two of three
/// successive deltas are merged first.
pub proof fn lemma_merge_is_associative(a: DeltaView, b: DeltaView, c: DeltaView)
    ensures
        a.merged(b).merged(c) == a.merged(b.merged(c)),
{
    assert((a.uploads + b.uploads) + c.uploads =~= a.uploads + (b.uploads + c.uploads));
    assert((a.releases + b.releases) + c.releases =~= a.releases + (b.releases + c.releases));
}

/// The empty delta is neutral: merging it in, before or after, changes
/// nothing, and applying it leaves the textures as they are.
pub proof fn lemma_empty_is_neutral(a: DeltaView, live: Set<TextureId>)
    ensures
        a.merged(DeltaView::empty()) == a,
        DeltaView::empty().merged(a) == a,
        DeltaView::empty().applied(live) == live,
{
    assert(a.uploads + Seq::<TextureId>::empty() =~= a.uploads);
    assert(a.releases + Seq::<TextureId>::empty() =~= a.releases);
    assert(Seq::<TextureId>::empty() + a.uploads =~= a.uploads);
    assert(Seq::<TextureId>::empty() + a.releases =~= a.releases);
    assert(DeltaView::empty().applied(live) =~= live);
}

/// Applying a delta is idempotent: a second frame with the same delta
/// leaves the textures as the first left them, and so does one frame with
/// the delta merged with itself.
pub proof fn lemma_apply_is_idempotent(a: DeltaView, live: Set<TextureId>)
    ensures
        a.applied(a.applied(live)) == a.applied(live),
        a.merged(a).applied(live) == a.applied(live),
{
    assert(a.applied(a.applied(live)) =~= a.applied(live));
    assert forall|id: TextureId| #[trigger]
        a.merged(a).applied(live).contains(id) == a.applied(live).contains(id) by {
        lemma_concat_contains(a.uploads, a.uploads, id);
        lemma_concat_contains(a.releases, a.releases, id);
    }
    assert(a.merged(a).applied(live) =~= a.applied(live));
}

/// One frame with two deltas merged leaves the same textures as two frames
/// with one delta each, provided the newer delta does not set again a
/// texture that the older one frees.
pub proof fn lemma_merge_applies_like_sequence(a: DeltaView, b: DeltaView, live: Set<TextureId>)
    requires
        !a.revived_by(b),
    ensures
        a.merged(b).applied(live) == b.applied(a.applied(live)),
{
    assert forall|id: TextureId| #[trigger]
        a.merged(b).applied(live).contains(id) == b.applied(a.applied(live)).contains(id) by {
        lemma_concat_contains(a.uploads, b.uploads, id);
        lemma_concat_contains(a.releases, b.releases, id);
    }
    assert(a.merged(b).applied(live) =~= b.applied(a.applied(live)));
}

/// Where the newer delta does set again a texture that the older one
/// frees, the two ways differ: two frames leave that texture live, one
/// merged frame frees it.
pub proof fn lemma_merge_frees_what_sequence_revives(
    a: DeltaView,
    b: DeltaView,
    live: Set<TextureId>,
    id: TextureId,
)
    requires
        a.releases.contains(id),
        b.uploads.contains(id),
        !b.releases.contains(id),
    ensures
        b.applied(a.applied(live)).contains(id),
        !a.merged(b).applied(live).contains(id),
{
    lemma_concat_contains(a.releases, b.releases, id);
}

} // verus!
