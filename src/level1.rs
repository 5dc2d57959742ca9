use vstd::prelude::*;
use crate::geometry::{Rectangle, SCALE};
use crate::render::{Color, DrawCommand, DrawOp};
use crate::scene::SceneResult;

verus! {

/// A menu screen: a greeting and a button toward the next level.
pub struct Level1 {}

/// Where the button of `Level1` stands.
pub open spec fn level1_button() -> Rectangle {
    Rectangle { x: 12_000_000, y: 60_000_000, width: 100_000_000, height: 40_000_000 }
}

/// The frame `Level1` describes.
pub open spec fn level1_picture() -> Seq<DrawOp> {
    seq![
        DrawOp::Text("Hello, level 1!"@, 12, 12, 20, Color::ray_white_spec()),
        DrawOp::Button(level1_button(), "Go to level 2!"@),
    ]
}

impl Level1 {
    pub fn new() -> (r: Self)
        ensures
            r == (Level1 {}),
    {
        Level1 {}
    }

    /// Runs one frame: the scene has no state to update, only a frame to draw.
    pub fn frame(&mut self) -> (r: (SceneResult, Vec<DrawCommand>))
        ensures
            r.0 == SceneResult::OnGoing,
            r.1@.map_values(|c: DrawCommand| c@) == level1_picture(),
    {
        let mut out: Vec<DrawCommand> = Vec::new();
        out.push(
            DrawCommand::Text {
                text: "Hello, level 1!".to_string(),
                x: 12,
                y: 12,
                font_size: 20,
                color: Color::ray_white(),
            },
        );
        out.push(
            DrawCommand::Button {
                bounds: Rectangle { x: 12 * SCALE, y: 60 * SCALE, width: 100 * SCALE, height: 40 * SCALE },
                label: "Go to level 2!".to_string(),
            },
        );
        assert(out@.map_values(|c: DrawCommand| c@) =~= level1_picture());
        (SceneResult::OnGoing, out)
    }
}

/// A level still under construction: it only greets the player.
pub struct Level2 {}

/// The frame `Level2` describes.
pub open spec fn level2_picture() -> Seq<DrawOp> {
    seq![DrawOp::Text("Hello, level 2!"@, 12, 12, 20, Color::black_spec())]
}

impl Level2 {
    pub fn new() -> (r: Self)
        ensures
            r == (Level2 {}),
    {
        Level2 {}
    }

    pub fn frame(&mut self) -> (r: (SceneResult, Vec<DrawCommand>))
        ensures
            r.0 == SceneResult::OnGoing,
            r.1@.map_values(|c: DrawCommand| c@) == level2_picture(),
    {
        let mut out: Vec<DrawCommand> = Vec::new();
        out.push(
            DrawCommand::Text {
                text: "Hello, level 2!".to_string(),
                x: 12,
                y: 12,
                font_size: 20,
                color: Color::black(),
            },
        );
        assert(out@.map_values(|c: DrawCommand| c@) =~= level2_picture());
        (SceneResult::OnGoing, out)
    }
}

} // verus!
