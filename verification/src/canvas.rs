//! Fitting the square game board into the browser viewport: the board takes
//! the largest square that fits, and the viewport's orientation decides
//! where the remaining space goes.

use vstd::prelude::*;

verus! {

/// How the viewport is oriented: wider than tall, or at most as wide as
/// tall.
#[derive(Clone, Copy, PartialEq, Eq, Structural, Debug)]
pub enum Orientation {
    Landscape,
    Portrait,
}

/// The sizes the game canvas is laid out with, in pixels. The board itself
/// is the square of side `board_canvas_width == board_canvas_height`, the
/// smaller of the two viewport sides.
#[derive(Clone, Copy, PartialEq, Eq, Structural, Debug)]
pub struct GameBoardCanvas {
    /// Viewport width.
    pub client_width: i32,
    /// Viewport height.
    pub client_height: i32,
    /// Whether the viewport is wider than tall.
    pub orientation: Orientation,
    /// Side of the square board canvas.
    pub board_canvas_width: i32,
    /// Side of the square board canvas; always equal to
    /// `board_canvas_width`.
    pub board_canvas_height: i32,
}

/// The layout for a viewport of the given size: landscape when wider than
/// tall, and the board square as large as the smaller side allows.
pub open spec fn canvas_spec(client_width: i32, client_height: i32) -> GameBoardCanvas {
    GameBoardCanvas {
        client_width: client_width,
        client_height: client_height,
        orientation: if client_width > client_height {
            Orientation::Landscape
        } else {
            Orientation::Portrait
        },
        board_canvas_width: if client_width > client_height {
            client_height
        } else {
            client_width
        },
        board_canvas_height: if client_width > client_height {
            client_height
        } else {
            client_width
        },
    }
}

/// Lay the canvas out for a viewport of the given size, as done once at
/// startup.
pub fn get_game_board_canvas(client_width: i32, client_height: i32) -> (r: GameBoardCanvas)
    ensures
        r == canvas_spec(client_width, client_height),
{
    let (square, orientation) = if client_width > client_height {
        (client_height, Orientation::Landscape)
    } else {
        (client_width, Orientation::Portrait)
    };
    GameBoardCanvas {
        client_width,
        client_height,
        orientation,
        board_canvas_width: square,
        board_canvas_height: square,
    }
}

/// Refit the canvas after the viewport changed size: every field is
/// recomputed for the new size, exactly as at startup.
pub fn handle_browser_resize(canvas: &mut GameBoardCanvas, client_width: i32, client_height: i32)
    ensures
        *final(canvas) == canvas_spec(client_width, client_height),
{
    *canvas = get_game_board_canvas(client_width, client_height);
}

} // verus!
