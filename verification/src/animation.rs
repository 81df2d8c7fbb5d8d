use vstd::prelude::*;
use uuid::Uuid;

verus! {

/// What a card's flash animation ends in.
#[derive(Debug, Clone, Copy, PartialEq, Eq, Structural)]
pub enum AnimationType {
    Archiving,
    Restoring,
    Deleting,
}

/// How long a card flashes before its action is carried out.
pub const ANIMATION_DURATION_MS: u64 = 150;

/// A running animation: the card, what it ends in, and the milliseconds
/// since it started.
#[derive(Debug, Clone, Copy)]
pub struct RunningAnimation {
    pub card_id: Uuid,
    pub kind: AnimationType,
    pub elapsed_ms: u64,
}

/// The animations of a tick, sorted: the cards whose animation is over, by
/// what it ends in, and the animations still running.
pub struct AnimationBatches {
    pub archive: Vec<Uuid>,
    pub restore: Vec<Uuid>,
    pub delete: Vec<Uuid>,
    pub running: Vec<RunningAnimation>,
}

pub open spec fn finished(a: RunningAnimation) -> bool {
    a.elapsed_ms >= ANIMATION_DURATION_MS
}

/// Cards of the finished animations of `anims` ending in `kind`, in order.
pub open spec fn finished_of(anims: Seq<RunningAnimation>, kind: AnimationType) -> Seq<Uuid>
    decreases anims.len(),
{
    if anims.len() == 0 {
        Seq::empty()
    } else {
        let r = finished_of(anims.drop_last(), kind);
        let a = anims.last();
        if finished(a) && a.kind == kind { r.push(a.card_id) } else { r }
    }
}

/// The animations of `anims` still running, in order.
pub open spec fn still_running(anims: Seq<RunningAnimation>) -> Seq<RunningAnimation>
    decreases anims.len(),
{
    if anims.len() == 0 {
        Seq::empty()
    } else {
        let r = still_running(anims.drop_last());
        if finished(anims.last()) { r } else { r.push(anims.last()) }
    }
}

/// Sorts the animations of a tick (see `AnimationBatches`).
pub fn split_finished(anims: &Vec<RunningAnimation>) -> (b: AnimationBatches)
    ensures
        b.archive@ == finished_of(anims@, AnimationType::Archiving),
        b.restore@ == finished_of(anims@, AnimationType::Restoring),
        b.delete@ == finished_of(anims@, AnimationType::Deleting),
        b.running@ == still_running(anims@),
{
    let mut archive: Vec<Uuid> = Vec::new();
    let mut restore: Vec<Uuid> = Vec::new();
    let mut delete: Vec<Uuid> = Vec::new();
    let mut running: Vec<RunningAnimation> = Vec::new();
    let mut i: usize = 0;
    while i < anims.len()
        invariant
            i <= anims@.len(),
            archive@ == finished_of(anims@.take(i as int), AnimationType::Archiving),
            restore@ == finished_of(anims@.take(i as int), AnimationType::Restoring),
            delete@ == finished_of(anims@.take(i as int), AnimationType::Deleting),
            running@ == still_running(anims@.take(i as int)),
        decreases anims@.len() - i,
    {
        let a = anims[i];
        assert(anims@.take(i + 1).drop_last() =~= anims@.take(i as int));
        if a.elapsed_ms >= ANIMATION_DURATION_MS {
            match a.kind {
                AnimationType::Archiving => archive.push(a.card_id),
                AnimationType::Restoring => restore.push(a.card_id),
                AnimationType::Deleting => delete.push(a.card_id),
            }
        } else {
            running.push(a);
        }
        i = i + 1;
    }
    assert(anims@.take(i as int) =~= anims@);
    AnimationBatches { archive, restore, delete, running }
}

/// Every animation of a tick is either finished, in exactly one batch, or
/// still running: none is lost and none is carried out twice.
pub proof fn lemma_every_animation_accounted(anims: Seq<RunningAnimation>)
    ensures
        finished_of(anims, AnimationType::Archiving).len() + finished_of(anims, AnimationType::Restoring).len()
            + finished_of(anims, AnimationType::Deleting).len() + still_running(anims).len() == anims.len(),
    decreases anims.len(),
{
    if anims.len() > 0 {
        lemma_every_animation_accounted(anims.drop_last());
    }
}

} // verus!
