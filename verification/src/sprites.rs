//! Bookkeeping of the sprites that mirror organisms.
use vstd::prelude::*;

verus! {

/// The sprites to despawn: those (in link order) whose linked organism is
/// among the removed entities. Each link is `(sprite, organism)`.
pub open spec fn orphaned(removed: Seq<u64>, links: Seq<(u64, u64)>) -> Seq<u64>
    decreases links.len(),
{
    if links.len() == 0 {
        Seq::empty()
    } else {
        let last = links[links.len() - 1];
        let prev = orphaned(removed, links.drop_last());
        if removed.contains(last.1) {
            prev.push(last.0)
        } else {
            prev
        }
    }
}

fn contains_entity(entities: &Vec<u64>, e: u64) -> (res: bool)
    ensures
        res == entities@.contains(e),
{
    let mut i: usize = 0;
    while i < entities.len()
        invariant
            0 <= i <= entities@.len(),
            forall|k: int| 0 <= k < i ==> entities@[k] != e,
        decreases entities@.len() - i,
    {
        if entities[i] == e {
            return true;
        }
        i = i + 1;
    }
    false
}

/// Sprites left behind by organisms removed this frame, to be despawned.
pub fn orphaned_sprites(removed: &Vec<u64>, links: &Vec<(u64, u64)>) -> (res: Vec<u64>)
    ensures
        res@ == orphaned(removed@, links@),
        removed@.len() == 0 ==> res@.len() == 0,
{
    let mut res: Vec<u64> = Vec::new();
    if removed.len() == 0 {
        proof {
            lemma_nothing_removed(removed@, links@);
        }
        return res;
    }
    let mut i: usize = 0;
    while i < links.len()
        invariant
            0 <= i <= links@.len(),
            res@ == orphaned(removed@, links@.subrange(0, i as int)),
        decreases links@.len() - i,
    {
        let (sprite, organism) = links[i];
        if contains_entity(removed, organism) {
            res.push(sprite);
        }
        assert(links@.subrange(0, i + 1).drop_last() =~= links@.subrange(0, i as int));
        i = i + 1;
    }
    assert(links@.subrange(0, links@.len() as int) =~= links@);
    proof {
        lemma_nothing_removed(removed@, links@);
    }
    res
}

/// Without removals no sprite is orphaned.
pub proof fn lemma_nothing_removed(removed: Seq<u64>, links: Seq<(u64, u64)>)
    ensures
        removed.len() == 0 ==> orphaned(removed, links).len() == 0,
    decreases links.len(),
{
    if links.len() > 0 {
        lemma_nothing_removed(removed, links.drop_last());
    }
}

/// The organisms that get a sprite.
#[derive(Clone, Copy, Debug, PartialEq, Eq, Hash, Structural)]
pub enum OrganismKind {
    Fragment,
    PlantRoot,
    Fauna,
    FruitingBody,
    Mushroom,
    NeutralFungus,
}

/// The sprite images.
#[derive(Clone, Copy, Debug, PartialEq, Eq, Hash, Structural)]
pub enum SpriteImage {
    Fragment,
    PlantRoot,
    Fauna,
    Mushroom,
    NeutralFungus,
}

/// Fruiting bodies and grown mushrooms share the mushroom image; every other
/// organism has its own.
pub open spec fn spec_sprite_image(kind: OrganismKind) -> SpriteImage {
    match kind {
        OrganismKind::Fragment => SpriteImage::Fragment,
        OrganismKind::PlantRoot => SpriteImage::PlantRoot,
        OrganismKind::Fauna => SpriteImage::Fauna,
        OrganismKind::FruitingBody | OrganismKind::Mushroom => SpriteImage::Mushroom,
        OrganismKind::NeutralFungus => SpriteImage::NeutralFungus,
    }
}

pub fn sprite_image(kind: OrganismKind) -> (image: SpriteImage)
    ensures
        image == spec_sprite_image(kind),
{
    match kind {
        OrganismKind::Fragment => SpriteImage::Fragment,
        OrganismKind::PlantRoot => SpriteImage::PlantRoot,
        OrganismKind::Fauna => SpriteImage::Fauna,
        OrganismKind::FruitingBody | OrganismKind::Mushroom => SpriteImage::Mushroom,
        OrganismKind::NeutralFungus => SpriteImage::NeutralFungus,
    }
}

/// Mushroom images are drawn untinted.
pub fn keeps_natural_colour(kind: OrganismKind) -> (res: bool)
    ensures
        res == (spec_sprite_image(kind) == SpriteImage::Mushroom),
{
    matches!(kind, OrganismKind::FruitingBody | OrganismKind::Mushroom)
}

} // verus!
