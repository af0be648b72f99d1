//! Tiles: one styled glyph per grid cell.

use vstd::prelude::*;

verus! {

/// A foreground colour for a tile glyph. The drawing layer maps these onto
/// the terminal's own colour type; the core never inspects them.
#[derive(Clone, Copy, PartialEq, Eq, Structural, Debug)]
pub enum TileColor {
    White,
    Black,
    Red,
    Green,
    Blue,
    Yellow,
}

/// The visual style of a tile: a foreground colour.
#[derive(Clone, Copy, PartialEq, Eq, Structural, Debug)]
pub struct TileStyle {
    pub fg: TileColor,
}

impl TileStyle {
    /// The style a tile gets when none is given: a white foreground.
    pub open spec fn default_style() -> TileStyle {
        TileStyle { fg: TileColor::White }
    }
}

impl Default for TileStyle {
    fn default() -> (r: TileStyle)
        ensures
            r == TileStyle::default_style(),
    {
        TileStyle { fg: TileColor::White }
    }
}

/// One cell of the level grid: a glyph and its style. Immutable once built;
/// a tile has no identity beyond its position in the grid.
#[derive(Clone, Copy, PartialEq, Eq, Structural, Debug)]
pub struct Tile {
    pub symbol: char,
    pub style: TileStyle,
}

impl Tile {
    /// Build a tile; without an explicit style it gets the default one.
    pub fn new(symbol: char, style: Option<TileStyle>) -> (t: Tile)
        ensures
            t.symbol == symbol,
            style matches Some(s) ==> t.style == s,
            style is None ==> t.style == TileStyle::default_style(),
    {
        let style = match style {
            Some(s) => s,
            None => TileStyle::default(),
        };
        Tile { symbol, style }
    }
}

} // verus!
