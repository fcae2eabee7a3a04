//! How the creature looks: its face, how big it has grown, and the circles and
//! lines it is drawn with.

use vstd::prelude::*;

use crate::pet::Stage;

verus! {

/// How the creature should look. Kept separate from the game state so that the
/// transient screens (evolution, farewell) can ask for a face directly.
#[derive(Debug, Clone, Copy, PartialEq, Eq, Structural)]
pub enum Face {
    Normal,
    Happy,
    Troubled,
    Sick,
    Asleep,
    Dead,
}

/// Body radius, in pixels, by stage. Growing is most of what evolution looks
/// like: an egg and a baby share a size, and each later stage is larger.
pub open spec fn spec_body_radius(stage: Stage) -> isize {
    match stage {
        Stage::Egg | Stage::Baby => 13,
        Stage::Child => 17,
        Stage::Teen => 22,
        Stage::Adult => 26,
    }
}

/// Body radius by stage.
pub fn body_radius(stage: Stage) -> (r: isize)
    ensures
        r == spec_body_radius(stage),
{
    match stage {
        Stage::Egg | Stage::Baby => 13,
        Stage::Child => 17,
        Stage::Teen => 22,
        Stage::Adult => 26,
    }
}

/// Where the creature's body is centred on the screen, in pixels. It sits
/// above the trouble row rather than in the middle of the field, so that a
/// full-grown adult does not overlap it.
pub const CENTER_X: isize = 64;
pub const CENTER_Y: isize = 61;

/// How a shape is inked.
#[derive(Debug, Clone, Copy, PartialEq, Eq, Structural)]
pub enum Pen {
    /// A one-pixel outline in ink.
    Outline,
    /// Filled with ink.
    Filled,
    /// A three-pixel stroke in paper, wiping out what lies under it.
    Erase,
}

/// One stroke of a drawing, in screen pixels.
#[derive(Debug, Clone, Copy, PartialEq, Eq, Structural)]
pub enum Shape {
    Circle { x: isize, y: isize, r: isize, pen: Pen },
    Line { x0: isize, y0: isize, x1: isize, y1: isize, pen: Pen },
}

/// An egg: two overlapping outlines with the seam between them wiped, so it
/// reads as one shape.
pub open spec fn egg_shapes() -> Seq<Shape> {
    seq![
        Shape::Circle { x: CENTER_X, y: (CENTER_Y + 4) as isize, r: 18, pen: Pen::Outline },
        Shape::Circle { x: CENTER_X, y: (CENTER_Y - 8) as isize, r: 13, pen: Pen::Outline },
        Shape::Line {
            x0: (CENTER_X - 12) as isize,
            y0: (CENTER_Y - 4) as isize,
            x1: (CENTER_X + 12) as isize,
            y1: (CENTER_Y - 4) as isize,
            pen: Pen::Erase,
        },
    ]
}

/// One eye centred at (`x`, `y`): a dash when asleep, a cross when dead, a
/// dot otherwise.
pub open spec fn eye_shapes(x: int, y: int, face: Face) -> Seq<Shape> {
    match face {
        Face::Asleep => seq![
            Shape::Line {
                x0: (x - 3) as isize,
                y0: y as isize,
                x1: (x + 3) as isize,
                y1: y as isize,
                pen: Pen::Outline,
            },
        ],
        Face::Dead => seq![
            Shape::Line {
                x0: (x - 3) as isize,
                y0: (y - 3) as isize,
                x1: (x + 3) as isize,
                y1: (y + 3) as isize,
                pen: Pen::Outline,
            },
            Shape::Line {
                x0: (x - 3) as isize,
                y0: (y + 3) as isize,
                x1: (x + 3) as isize,
                y1: (y - 3) as isize,
                pen: Pen::Outline,
            },
        ],
        _ => seq![Shape::Circle { x: x as isize, y: y as isize, r: 2, pen: Pen::Filled }],
    }
}

/// The mouth at height `y`, which carries the mood: a smile when happy, open
/// when troubled, a flat line otherwise.
pub open spec fn mouth_shapes(y: int, face: Face) -> Seq<Shape> {
    match face {
        Face::Happy => seq![
            Shape::Line {
                x0: (CENTER_X - 5) as isize,
                y0: y as isize,
                x1: CENTER_X,
                y1: (y + 4) as isize,
                pen: Pen::Outline,
            },
            Shape::Line {
                x0: CENTER_X,
                y0: (y + 4) as isize,
                x1: (CENTER_X + 5) as isize,
                y1: y as isize,
                pen: Pen::Outline,
            },
        ],
        Face::Troubled => seq![
            Shape::Circle { x: CENTER_X, y: (y + 1) as isize, r: 3, pen: Pen::Outline },
        ],
        _ => seq![
            Shape::Line {
                x0: (CENTER_X - 4) as isize,
                y0: y as isize,
                x1: (CENTER_X + 4) as isize,
                y1: y as isize,
                pen: Pen::Outline,
            },
        ],
    }
}

/// The creature at a stage, wearing a face: an egg has no face; anything
/// hatched is a round body sized by its stage, two eyes a third of the radius
/// above the centre and half of it to each side, and a mouth a third of the
/// radius below.
pub open spec fn spec_creature_shapes(stage: Stage, face: Face) -> Seq<Shape> {
    if stage == Stage::Egg {
        egg_shapes()
    } else {
        let r = spec_body_radius(stage) as int;
        let eye_y = CENTER_Y - r / 3;
        let eye_dx = r / 2;
        seq![Shape::Circle { x: CENTER_X, y: CENTER_Y, r: r as isize, pen: Pen::Outline }]
            + eye_shapes(CENTER_X - eye_dx, eye_y, face) + eye_shapes(
            CENTER_X + eye_dx,
            eye_y,
            face,
        ) + mouth_shapes(CENTER_Y + r / 3, face)
    }
}

fn push_eye(shapes: &mut Vec<Shape>, x: isize, y: isize, face: Face)
    requires
        0 <= x <= 128,
        0 <= y <= 128,
    ensures
        final(shapes)@ == old(shapes)@ + eye_shapes(x as int, y as int, face),
{
    match face {
        Face::Asleep => {
            shapes.push(Shape::Line { x0: x - 3, y0: y, x1: x + 3, y1: y, pen: Pen::Outline });
        },
        Face::Dead => {
            shapes.push(
                Shape::Line { x0: x - 3, y0: y - 3, x1: x + 3, y1: y + 3, pen: Pen::Outline },
            );
            shapes.push(
                Shape::Line { x0: x - 3, y0: y + 3, x1: x + 3, y1: y - 3, pen: Pen::Outline },
            );
        },
        _ => {
            shapes.push(Shape::Circle { x, y, r: 2, pen: Pen::Filled });
        },
    }
}

/// The circles and lines that draw the creature at `stage` wearing `face`, in
/// the order they are to be drawn.
pub fn creature_shapes(stage: Stage, face: Face) -> (r: Vec<Shape>)
    ensures
        r@ == spec_creature_shapes(stage, face),
{
    let mut shapes: Vec<Shape> = Vec::new();
    if stage == Stage::Egg {
        shapes.push(Shape::Circle { x: CENTER_X, y: CENTER_Y + 4, r: 18, pen: Pen::Outline });
        shapes.push(Shape::Circle { x: CENTER_X, y: CENTER_Y - 8, r: 13, pen: Pen::Outline });
        shapes.push(
            Shape::Line {
                x0: CENTER_X - 12,
                y0: CENTER_Y - 4,
                x1: CENTER_X + 12,
                y1: CENTER_Y - 4,
                pen: Pen::Erase,
            },
        );
        assert(shapes@ =~= egg_shapes());
        return shapes;
    }
    let r = body_radius(stage);
    shapes.push(Shape::Circle { x: CENTER_X, y: CENTER_Y, r, pen: Pen::Outline });
    let eye_y = CENTER_Y - r / 3;
    let eye_dx = r / 2;
    push_eye(&mut shapes, CENTER_X - eye_dx, eye_y, face);
    push_eye(&mut shapes, CENTER_X + eye_dx, eye_y, face);
    let mouth_y = CENTER_Y + r / 3;
    match face {
        Face::Happy => {
            shapes.push(
                Shape::Line {
                    x0: CENTER_X - 5,
                    y0: mouth_y,
                    x1: CENTER_X,
                    y1: mouth_y + 4,
                    pen: Pen::Outline,
                },
            );
            shapes.push(
                Shape::Line {
                    x0: CENTER_X,
                    y0: mouth_y + 4,
                    x1: CENTER_X + 5,
                    y1: mouth_y,
                    pen: Pen::Outline,
                },
            );
        },
        Face::Troubled => {
            shapes.push(Shape::Circle { x: CENTER_X, y: mouth_y + 1, r: 3, pen: Pen::Outline });
        },
        _ => {
            shapes.push(
                Shape::Line {
                    x0: CENTER_X - 4,
                    y0: mouth_y,
                    x1: CENTER_X + 4,
                    y1: mouth_y,
                    pen: Pen::Outline,
                },
            );
        },
    }
    assert(shapes@ =~= spec_creature_shapes(stage, face));
    shapes
}

/// What each face draws. An egg looks the same whatever its face. A hatched
/// creature is its body circle, then two eyes a third of the radius above the
/// centre and half the radius to each side, then its mouth a third of the
/// radius below: crossed-out eyes only when dead, dashes only when asleep,
/// filled dots for every other face; a smile when happy, an open mouth when
/// troubled, a flat one otherwise. A sick face and a plain one look alike.
pub proof fn lemma_faces(stage: Stage, face: Face)
    ensures
        spec_creature_shapes(Stage::Egg, face) == spec_creature_shapes(Stage::Egg, Face::Normal),
        spec_creature_shapes(Stage::Egg, face).len() == 3,
        spec_creature_shapes(stage, Face::Sick) == spec_creature_shapes(stage, Face::Normal),
        stage != Stage::Egg ==> ({
            let s = spec_creature_shapes(stage, face);
            let r = spec_body_radius(stage) as int;
            let ey = CENTER_Y - r / 3;
            let lx = CENTER_X - r / 2;
            let rx = CENTER_X + r / 2;
            let my = CENTER_Y + r / 3;
            let n = s.len();
            &&& s[0] == Shape::Circle { x: CENTER_X, y: CENTER_Y, r: r as isize, pen: Pen::Outline }
            &&& n == (if face == Face::Dead {
                6int
            } else if face == Face::Happy {
                5int
            } else {
                4int
            })
            &&& (face != Face::Dead && face != Face::Asleep ==> s[1] == Shape::Circle {
                x: lx as isize,
                y: ey as isize,
                r: 2,
                pen: Pen::Filled,
            } && s[2] == Shape::Circle { x: rx as isize, y: ey as isize, r: 2, pen: Pen::Filled })
            &&& (face == Face::Asleep ==> s[1] == Shape::Line {
                x0: (lx - 3) as isize,
                y0: ey as isize,
                x1: (lx + 3) as isize,
                y1: ey as isize,
                pen: Pen::Outline,
            } && s[2] == Shape::Line {
                x0: (rx - 3) as isize,
                y0: ey as isize,
                x1: (rx + 3) as isize,
                y1: ey as isize,
                pen: Pen::Outline,
            })
            &&& (face == Face::Dead ==> s[1] == Shape::Line {
                x0: (lx - 3) as isize,
                y0: (ey - 3) as isize,
                x1: (lx + 3) as isize,
                y1: (ey + 3) as isize,
                pen: Pen::Outline,
            } && s[2] == Shape::Line {
                x0: (lx - 3) as isize,
                y0: (ey + 3) as isize,
                x1: (lx + 3) as isize,
                y1: (ey - 3) as isize,
                pen: Pen::Outline,
            } && s[3] == Shape::Line {
                x0: (rx - 3) as isize,
                y0: (ey - 3) as isize,
                x1: (rx + 3) as isize,
                y1: (ey + 3) as isize,
                pen: Pen::Outline,
            } && s[4] == Shape::Line {
                x0: (rx - 3) as isize,
                y0: (ey + 3) as isize,
                x1: (rx + 3) as isize,
                y1: (ey - 3) as isize,
                pen: Pen::Outline,
            })
            &&& (face == Face::Happy ==> s[3] == Shape::Line {
                x0: (CENTER_X - 5) as isize,
                y0: my as isize,
                x1: CENTER_X,
                y1: (my + 4) as isize,
                pen: Pen::Outline,
            } && s[4] == Shape::Line {
                x0: CENTER_X,
                y0: (my + 4) as isize,
                x1: (CENTER_X + 5) as isize,
                y1: my as isize,
                pen: Pen::Outline,
            })
            &&& (face == Face::Troubled ==> s[n - 1] == Shape::Circle {
                x: CENTER_X,
                y: (my + 1) as isize,
                r: 3,
                pen: Pen::Outline,
            })
            &&& (face != Face::Happy && face != Face::Troubled ==> s[n - 1] == Shape::Line {
                x0: (CENTER_X - 4) as isize,
                y0: my as isize,
                x1: (CENTER_X + 4) as isize,
                y1: my as isize,
                pen: Pen::Outline,
            })
        }),
{
    assert(spec_creature_shapes(stage, Face::Sick) =~= spec_creature_shapes(stage, Face::Normal));
}

} // verus!
