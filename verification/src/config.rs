//! Where the window sits on the screen.
//!
//! The screen is divided into a grid of three columns and three rows. The
//! configured position names a cell; the window is anchored to the edges
//! that the cell touches, at the margin configured for each edge.

use vstd::prelude::*;
use vstd::string::*;
use crate::text::str_eq;

verus! {

/// Window placement as configured.
#[derive(Debug, Clone)]
pub struct Config {
    pub position: String,
    pub margin_top: i32,
    pub margin_right: i32,
    pub margin_bottom: i32,
    pub margin_left: i32,
}

/// A configuration as a mathematical value.
pub struct ConfigView {
    pub position: Seq<char>,
    pub margin_top: i32,
    pub margin_right: i32,
    pub margin_bottom: i32,
    pub margin_left: i32,
}

impl View for Config {
    type V = ConfigView;

    open spec fn view(&self) -> ConfigView {
        ConfigView {
            position: self.position@,
            margin_top: self.margin_top,
            margin_right: self.margin_right,
            margin_bottom: self.margin_bottom,
            margin_left: self.margin_left,
        }
    }
}

/// The margin, in pixels, of an edge for which none is configured.
pub open spec fn margin_default() -> i32 {
    10
}

/// The position used when none is configured.
pub fn default_position() -> (p: String)
    ensures
        p@ == "center"@,
{
    String::from_str("center")
}

/// The margin, in pixels, of an edge for which none is configured.
pub fn default_margin() -> (m: i32)
    ensures
        m == margin_default(),
{
    10
}

/// The configuration in which nothing is configured.
pub open spec fn default_config() -> ConfigView {
    ConfigView {
        position: "center"@,
        margin_top: margin_default(),
        margin_right: margin_default(),
        margin_bottom: margin_default(),
        margin_left: margin_default(),
    }
}

impl Default for Config {
    fn default() -> (c: Config)
        ensures
            c@ == default_config(),
    {
        Config {
            position: default_position(),
            margin_top: default_margin(),
            margin_right: default_margin(),
            margin_bottom: default_margin(),
            margin_left: default_margin(),
        }
    }
}

/// What a configuration file sets; what it leaves out is `None`.
#[derive(Debug, Clone)]
pub struct ConfigFile {
    pub position: Option<String>,
    pub margin_top: Option<i32>,
    pub margin_right: Option<i32>,
    pub margin_bottom: Option<i32>,
    pub margin_left: Option<i32>,
}

/// A margin as configured, or the default.
pub open spec fn margin_or_default(m: Option<i32>) -> i32 {
    match m {
        Some(v) => v,
        None => margin_default(),
    }
}

/// The column and the row of the grid cell that a position names, each 0,
/// 1 or 2 from the left and from the top. A name that is no position
/// stands for the centre.
pub open spec fn grid_cell(position: Seq<char>) -> (i32, i32) {
    if position == "top-left"@ {
        (0, 0)
    } else if position == "top-center"@ {
        (1, 0)
    } else if position == "top-right"@ {
        (2, 0)
    } else if position == "center-left"@ {
        (0, 1)
    } else if position == "center"@ {
        (1, 1)
    } else if position == "center-right"@ {
        (2, 1)
    } else if position == "bottom-left"@ {
        (0, 2)
    } else if position == "bottom-center"@ {
        (1, 2)
    } else if position == "bottom-right"@ {
        (2, 2)
    } else {
        (1, 1)
    }
}

/// The edges of the screen to which the window is anchored, each with its
/// margin; `None` for an edge to which it is not anchored.
#[derive(Debug, Clone, Copy, PartialEq, Eq, Structural)]
pub struct Placement {
    pub top: Option<i32>,
    pub bottom: Option<i32>,
    pub left: Option<i32>,
    pub right: Option<i32>,
}

/// The placement that a configuration asks for: the window is anchored to
/// the left or right edge in the outer columns and to the top or bottom
/// edge in the outer rows, and floats in the middle ones.
pub open spec fn placement_of(c: ConfigView) -> Placement {
    let (col, row) = grid_cell(c.position);
    Placement {
        top: if row == 0 {
            Some(c.margin_top)
        } else {
            None
        },
        bottom: if row == 2 {
            Some(c.margin_bottom)
        } else {
            None
        },
        left: if col == 0 {
            Some(c.margin_left)
        } else {
            None
        },
        right: if col == 2 {
            Some(c.margin_right)
        } else {
            None
        },
    }
}

impl Config {
    /// The configuration that a file amounts to: what it sets, and the
    /// default for everything else.
    pub fn from_file(file: ConfigFile) -> (c: Config)
        ensures
            c@ == (ConfigView {
                position: match file.position {
                    Some(p) => p@,
                    None => "center"@,
                },
                margin_top: margin_or_default(file.margin_top),
                margin_right: margin_or_default(file.margin_right),
                margin_bottom: margin_or_default(file.margin_bottom),
                margin_left: margin_or_default(file.margin_left),
            }),
    {
        Config {
            position: match file.position {
                Some(p) => p,
                None => default_position(),
            },
            margin_top: match file.margin_top {
                Some(v) => v,
                None => default_margin(),
            },
            margin_right: match file.margin_right {
                Some(v) => v,
                None => default_margin(),
            },
            margin_bottom: match file.margin_bottom {
                Some(v) => v,
                None => default_margin(),
            },
            margin_left: match file.margin_left {
                Some(v) => v,
                None => default_margin(),
            },
        }
    }

    /// The column and the row of the grid cell of the configured position.
    pub fn position_tuple(&self) -> (cell: (i32, i32))
        ensures
            cell == grid_cell(self.position@),
    {
        let p = self.position.as_str();
        if str_eq(p, "top-left") {
            (0, 0)
        } else if str_eq(p, "top-center") {
            (1, 0)
        } else if str_eq(p, "top-right") {
            (2, 0)
        } else if str_eq(p, "center-left") {
            (0, 1)
        } else if str_eq(p, "center") {
            (1, 1)
        } else if str_eq(p, "center-right") {
            (2, 1)
        } else if str_eq(p, "bottom-left") {
            (0, 2)
        } else if str_eq(p, "bottom-center") {
            (1, 2)
        } else if str_eq(p, "bottom-right") {
            (2, 2)
        } else {
            (1, 1)
        }
    }

    /// The edges to anchor the window to, with their margins.
    pub fn placement(&self) -> (p: Placement)
        ensures
            p == placement_of(self@),
    {
        let (col, row) = self.position_tuple();
        Placement {
            top: if row == 0 {
                Some(self.margin_top)
            } else {
                None
            },
            bottom: if row == 2 {
                Some(self.margin_bottom)
            } else {
                None
            },
            left: if col == 0 {
                Some(self.margin_left)
            } else {
                None
            },
            right: if col == 2 {
                Some(self.margin_right)
            } else {
                None
            },
        }
    }

    /// The configuration with another position, as a toggle request may
    /// ask for.
    pub fn with_position(self, position: &str) -> (c: Config)
        ensures
            c@ == (ConfigView { position: position@, ..self@ }),
    {
        Config { position: String::from_str(position), ..self }
    }
}

/// Every cell lies in the grid.
pub proof fn lemma_cell_in_grid(position: Seq<char>)
    ensures
        0 <= grid_cell(position).0 <= 2,
        0 <= grid_cell(position).1 <= 2,
{
}

/// A window is never anchored to two opposite edges.
pub proof fn lemma_no_opposite_anchors(c: ConfigView)
    ensures
        !(placement_of(c).top is Some && placement_of(c).bottom is Some),
        !(placement_of(c).left is Some && placement_of(c).right is Some),
{
}

} // verus!
