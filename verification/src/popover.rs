//! The text of the tile popover.
use vstd::prelude::*;

use crate::hex::Hex;
use crate::region::RegionStates;
use crate::tile::{occupant_region, terrain_name, Occupant, Tile, TileContents};

verus! {

/// The decimal digit `d` as text.
pub open spec fn digit_text(d: int) -> Seq<char> {
    if d == 0 {
        "0"@
    } else if d == 1 {
        "1"@
    } else if d == 2 {
        "2"@
    } else if d == 3 {
        "3"@
    } else if d == 4 {
        "4"@
    } else if d == 5 {
        "5"@
    } else if d == 6 {
        "6"@
    } else if d == 7 {
        "7"@
    } else if d == 8 {
        "8"@
    } else {
        "9"@
    }
}

/// `n` in decimal, without leading zeros.
pub open spec fn nat_text(n: nat) -> Seq<char>
    decreases n,
{
    if n < 10 {
        digit_text(n as int)
    } else {
        nat_text(n / 10) + digit_text((n % 10) as int)
    }
}

/// `i` in decimal, with a leading minus sign when negative.
pub open spec fn int_text(i: int) -> Seq<char> {
    if i < 0 {
        "-"@ + nat_text((-i) as nat)
    } else {
        nat_text(i as nat)
    }
}

fn digit_str(d: u64) -> (s: &'static str)
    requires
        d < 10,
    ensures
        s@ == digit_text(d as int),
{
    if d == 0 {
        "0"
    } else if d == 1 {
        "1"
    } else if d == 2 {
        "2"
    } else if d == 3 {
        "3"
    } else if d == 4 {
        "4"
    } else if d == 5 {
        "5"
    } else if d == 6 {
        "6"
    } else if d == 7 {
        "7"
    } else if d == 8 {
        "8"
    } else {
        "9"
    }
}

/// Appends `n` in decimal.
pub fn append_nat(out: &mut String, n: u64)
    ensures
        final(out)@ == old(out)@ + nat_text(n as nat),
    decreases n,
{
    if n >= 10 {
        append_nat(out, n / 10);
    }
    out.append(digit_str(n % 10));
    assert(final(out)@ =~= old(out)@ + nat_text(n as nat));
}

/// Appends `i` in decimal.
pub fn append_int(out: &mut String, i: i32)
    ensures
        final(out)@ == old(out)@ + int_text(i as int),
{
    if i < 0 {
        out.append("-");
        let magnitude: i64 = -(i as i64);
        append_nat(out, magnitude as u64);
        assert(final(out)@ =~= old(out)@ + int_text(i as int));
    } else {
        append_nat(out, i as u64);
    }
}

pub open spec fn occupant_text(o: Occupant) -> Seq<char> {
    match o {
        Occupant::Empty => "Empty"@,
        Occupant::Player(rid) => "Player (region "@ + nat_text(rid.0 as nat) + ")"@,
        Occupant::Rival(rid) => "Rival "@ + nat_text(rid.0 as nat),
    }
}

pub open spec fn contents_text(c: TileContents) -> Seq<char> {
    match c {
        TileContents::OrganicMatter => "Organic matter"@,
        TileContents::Mineral => "Mineral"@,
        TileContents::Artifact => "Artifact"@,
        TileContents::Fragment(id) => "Fragment #"@ + nat_text(id.0 as nat),
        TileContents::UniqueDecomposable(id) => "Unique decomposable #"@ + nat_text(id as nat),
        TileContents::NeutralFungus(id) => "Neutral fungus #"@ + nat_text(id as nat),
        TileContents::PlantRoot(id) => "Plant root #"@ + nat_text(id as nat),
    }
}

/// The popover lines above the resource line: position, terrain, occupant,
/// contents when there are any, and a mark on undiscovered tiles.
pub open spec fn tile_head_text(hex: Hex, t: Tile) -> Seq<char> {
    "("@ + int_text(hex.x as int) + ", "@ + int_text(hex.y as int) + ")\nTerrain: "@ + terrain_name(
        t.terrain,
    ) + "\nOccupant: "@ + occupant_text(t.occupant) + (match t.contents {
        Some(c) => "\nContents: "@ + contents_text(c),
        None => Seq::empty(),
    }) + (if t.discovered {
        Seq::empty()
    } else {
        "\n(undiscovered)"@
    })
}

fn append_occupant(out: &mut String, o: &Occupant)
    ensures
        final(out)@ == old(out)@ + occupant_text(*o),
{
    match o {
        Occupant::Empty => out.append("Empty"),
        Occupant::Player(rid) => {
            out.append("Player (region ");
            append_nat(out, rid.0 as u64);
            out.append(")");
        },
        Occupant::Rival(rid) => {
            out.append("Rival ");
            append_nat(out, rid.0 as u64);
        },
    }
    assert(final(out)@ =~= old(out)@ + occupant_text(*o));
}

fn append_contents(out: &mut String, c: &TileContents)
    ensures
        final(out)@ == old(out)@ + contents_text(*c),
{
    match c {
        TileContents::OrganicMatter => out.append("Organic matter"),
        TileContents::Mineral => out.append("Mineral"),
        TileContents::Artifact => out.append("Artifact"),
        TileContents::Fragment(id) => {
            out.append("Fragment #");
            append_nat(out, id.0 as u64);
        },
        TileContents::UniqueDecomposable(id) => {
            out.append("Unique decomposable #");
            append_nat(out, *id as u64);
        },
        TileContents::NeutralFungus(id) => {
            out.append("Neutral fungus #");
            append_nat(out, *id as u64);
        },
        TileContents::PlantRoot(id) => {
            out.append("Plant root #");
            append_nat(out, *id as u64);
        },
    }
    assert(final(out)@ =~= old(out)@ + contents_text(*c));
}

/// The popover text above the resource line (see `tile_head_text`).
pub fn format_tile_head(hex: Hex, tile: &Tile) -> (text: String)
    ensures
        text@ == tile_head_text(hex, *tile),
{
    let mut out = String::new();
    out.append("(");
    append_int(&mut out, hex.x);
    out.append(", ");
    append_int(&mut out, hex.y);
    out.append(")\nTerrain: ");
    out.append(tile.terrain.name());
    out.append("\nOccupant: ");
    append_occupant(&mut out, &tile.occupant);
    match &tile.contents {
        Some(c) => {
            out.append("\nContents: ");
            append_contents(&mut out, c);
        },
        None => {},
    }
    if !tile.discovered {
        out.append("\n(undiscovered)");
    }
    assert(out@ =~= tile_head_text(hex, *tile));
    out
}

/// The closing popover line: the owning region and its size, when the tile
/// belongs to a region that still exists; empty otherwise.
pub open spec fn region_line_text(t: Tile, regions: Map<crate::region::RegionId, crate::region::RegionState>) -> Seq<char> {
    match occupant_region(t.occupant) {
        Some(rid) => if regions.contains_key(rid) {
            "\nRegion "@ + nat_text(regions[rid].region_id.0 as nat) + " | tiles "@ + nat_text(
                regions[rid].tile_count as nat,
            )
        } else {
            Seq::empty()
        },
        None => Seq::empty(),
    }
}

pub fn format_region_line(tile: &Tile, region_states: &RegionStates) -> (text: String)
    ensures
        text@ == region_line_text(*tile, region_states@),
{
    let mut out = String::new();
    match tile.occupant.region_id() {
        Some(rid) => match region_states.get(rid) {
            Some(state) => {
                out.append("\nRegion ");
                append_nat(&mut out, state.region_id.0 as u64);
                out.append(" | tiles ");
                append_nat(&mut out, state.tile_count as u64);
            },
            None => {},
        },
        None => {},
    }
    assert(out@ =~= region_line_text(*tile, region_states@));
    out
}

} // verus!
