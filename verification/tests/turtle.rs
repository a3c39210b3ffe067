//! Tests for the turtle interpreter: the operation stream, the stack
//! discipline, and the geometry its operations stand for.

use lsystem_fractals::errors::RenderError;
use lsystem_fractals::turtle::{interpret, TurtleOp};

fn chars(s: &str) -> Vec<char> {
    s.chars().collect()
}

/// A plain floating-point walk of an operation stream, the way the
/// embedding drives the surface: headings in degrees, `+` turning one
/// way and `-` the other.
struct Walk {
    x: f64,
    y: f64,
    heading_degrees: f64,
    turn_degrees: f64,
    stroke: f64,
    stack: Vec<(f64, f64, f64)>,
    segments: Vec<((f64, f64), (f64, f64))>,
}

impl Walk {
    fn new(turn_degrees: f64, stroke: f64) -> Walk {
        Walk { x: 0.0, y: 0.0, heading_degrees: 0.0, turn_degrees, stroke, stack: Vec::new(), segments: Vec::new() }
    }

    fn run(&mut self, ops: &[TurtleOp]) {
        for op in ops {
            match op {
                TurtleOp::Forward => {
                    let from = (self.x, self.y);
                    let rad = self.heading_degrees.to_radians();
                    self.x += self.stroke * rad.cos();
                    self.y += self.stroke * rad.sin();
                    self.segments.push((from, (self.x, self.y)));
                }
                TurtleOp::TurnPlus => self.heading_degrees -= self.turn_degrees,
                TurtleOp::TurnMinus => self.heading_degrees += self.turn_degrees,
                TurtleOp::Push => self.stack.push((self.x, self.y, self.heading_degrees)),
                TurtleOp::Pop => {
                    let (x, y, h) = self.stack.pop().unwrap();
                    self.x = x;
                    self.y = y;
                    self.heading_degrees = h;
                }
            }
        }
    }
}

#[test]
fn symbols_map_to_operations() {
    let ops = interpret(&chars("FAB+-[]")).unwrap();
    assert_eq!(
        ops,
        vec![
            TurtleOp::Forward,
            TurtleOp::Forward,
            TurtleOp::Forward,
            TurtleOp::TurnPlus,
            TurtleOp::TurnMinus,
            TurtleOp::Push,
            TurtleOp::Pop,
        ]
    );
}

#[test]
fn unknown_symbols_are_ignored() {
    let ops = interpret(&chars("XFyY+Z")).unwrap();
    assert_eq!(ops, vec![TurtleOp::Forward, TurtleOp::TurnPlus]);
}

#[test]
fn square_walk_closes() {
    // "F+F+F+F" at 90 degrees: four sides of length L return the cursor
    // to its start, within floating-point tolerance.
    let ops = interpret(&chars("F+F+F+F")).unwrap();
    let mut walk = Walk::new(90.0, 10.0);
    walk.run(&ops);
    assert_eq!(walk.segments.len(), 4);
    assert!(walk.x.abs() < 1e-9, "x = {}", walk.x);
    assert!(walk.y.abs() < 1e-9, "y = {}", walk.y);
}

#[test]
fn branch_restores_saved_cursor() {
    // "F[+F]F" draws three segments; after the `]` the cursor stands
    // where it stood just before the `[`, not at the branch tip, and the
    // final forward continues from there.
    let ops = interpret(&chars("F[+F]F")).unwrap();
    let stroke = 10.0;
    let mut walk = Walk::new(90.0, stroke);

    // Walk up to and including the Pop by hand to inspect the restore.
    let pop_at = ops.iter().position(|op| matches!(op, TurtleOp::Pop)).unwrap();
    walk.run(&ops[..pop_at + 1]);
    assert!((walk.x - stroke).abs() < 1e-9);
    assert!(walk.y.abs() < 1e-9);
    assert_eq!(walk.heading_degrees, 0.0);
    assert!(walk.stack.is_empty());

    walk.run(&ops[pop_at + 1..]);
    assert_eq!(walk.segments.len(), 3);
    assert!((walk.x - 2.0 * stroke).abs() < 1e-9);
    assert!(walk.y.abs() < 1e-9);
}

#[test]
fn pop_on_empty_stack_is_malformed() {
    assert_eq!(interpret(&chars("]")).unwrap_err(), RenderError::MalformedSequence);
    assert_eq!(interpret(&chars("F[+F]]F")).unwrap_err(), RenderError::MalformedSequence);
}

#[test]
fn unclosed_saves_are_accepted() {
    // A save without a restore draws fine; only underflow is malformed.
    let ops = interpret(&chars("F[F")).unwrap();
    assert_eq!(ops, vec![TurtleOp::Forward, TurtleOp::Push, TurtleOp::Forward]);
}

#[test]
fn nested_branches_restore_in_order() {
    let ops = interpret(&chars("F[+F[-F]F]F")).unwrap();
    let mut walk = Walk::new(45.0, 1.0);
    walk.run(&ops);
    assert_eq!(walk.segments.len(), 5);
    assert!(walk.stack.is_empty());
    // The trunk ends two strokes from the origin along heading zero.
    assert!((walk.x - 2.0).abs() < 1e-9);
    assert!(walk.y.abs() < 1e-9);
    assert_eq!(walk.heading_degrees, 0.0);
}
