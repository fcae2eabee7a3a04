use dc34_virtual_pet_core::look::{body_radius, creature_shapes, Face, Pen, Shape};
use dc34_virtual_pet_core::pet::Stage;

#[test]
fn the_body_grows_with_each_stage_after_the_baby() {
    assert_eq!(body_radius(Stage::Egg), 13);
    assert_eq!(body_radius(Stage::Baby), 13);
    assert_eq!(body_radius(Stage::Child), 17);
    assert_eq!(body_radius(Stage::Teen), 22);
    assert_eq!(body_radius(Stage::Adult), 26);
    assert_ne!(Face::Happy, Face::Sick);
}

#[test]
fn an_egg_is_two_outlines_with_the_seam_wiped() {
    let shapes = creature_shapes(Stage::Egg, Face::Happy);
    assert_eq!(
        shapes,
        vec![
            Shape::Circle { x: 64, y: 65, r: 18, pen: Pen::Outline },
            Shape::Circle { x: 64, y: 53, r: 13, pen: Pen::Outline },
            Shape::Line { x0: 52, y0: 57, x1: 76, y1: 57, pen: Pen::Erase },
        ]
    );
}

#[test]
fn a_happy_adult_smiles_with_dot_eyes() {
    let shapes = creature_shapes(Stage::Adult, Face::Happy);
    assert_eq!(
        shapes,
        vec![
            Shape::Circle { x: 64, y: 61, r: 26, pen: Pen::Outline },
            Shape::Circle { x: 51, y: 53, r: 2, pen: Pen::Filled },
            Shape::Circle { x: 77, y: 53, r: 2, pen: Pen::Filled },
            Shape::Line { x0: 59, y0: 69, x1: 64, y1: 73, pen: Pen::Outline },
            Shape::Line { x0: 64, y0: 73, x1: 69, y1: 69, pen: Pen::Outline },
        ]
    );
}

#[test]
fn faces_change_the_eyes_and_mouth() {
    // A child: radius 17, eyes 5 up and 8 aside, mouth 5 down.
    let dead = creature_shapes(Stage::Child, Face::Dead);
    assert_eq!(dead.len(), 6);
    assert_eq!(dead[1], Shape::Line { x0: 53, y0: 53, x1: 59, y1: 59, pen: Pen::Outline });
    assert_eq!(dead[2], Shape::Line { x0: 53, y0: 59, x1: 59, y1: 53, pen: Pen::Outline });
    assert_eq!(dead[5], Shape::Line { x0: 60, y0: 66, x1: 68, y1: 66, pen: Pen::Outline });
    let asleep = creature_shapes(Stage::Baby, Face::Asleep);
    // A baby: radius 13, eyes 4 up and 6 aside.
    assert_eq!(asleep[1], Shape::Line { x0: 55, y0: 57, x1: 61, y1: 57, pen: Pen::Outline });
    assert_eq!(asleep[2], Shape::Line { x0: 67, y0: 57, x1: 73, y1: 57, pen: Pen::Outline });
    let troubled = creature_shapes(Stage::Teen, Face::Troubled);
    // A teen: radius 22, mouth 7 down.
    assert_eq!(troubled[3], Shape::Circle { x: 64, y: 69, r: 3, pen: Pen::Outline });
}
