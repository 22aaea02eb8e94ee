use gridvm::Direction;
use gridvm::Matrix;
use gridvm::MatrixPoint;
use gridvm::Pixel;
use gridvm::VM;

fn init_vm(matrix: Vec<Vec<u16>>, pc: MatrixPoint, direction: Direction) -> VM {
    let mut vm = VM::new();
    vm.instructions = Matrix::new(
        matrix
            .iter()
            .map(|row| row.iter().map(|p| Pixel::new(*p)).collect())
            .collect(),
    );
    vm.pc = pc;
    vm.direction = direction;
    vm
}

#[test]
fn test_road_preferred_over_higher_priority_neighbors() {
    // Heading East from the center: forward (2,1)=3, right (1,2)=4,
    // left (1,0)=180 and back (0,1)=2. The left road must win over the
    // higher-priority non-road forward and right cells.
    let vm = init_vm(
        vec![vec![1, 180, 1], vec![2, 9, 3], vec![1, 4, 1]],
        MatrixPoint(1, 1),
        Direction::East,
    );

    assert_eq!(vm.get_next_instruction(), Pixel::new(180));
}

#[test]
fn test_road_behind_yields_to_forward() {
    // Heading East from the center: the only road (0,1) lies directly
    // behind; the forward cell (2,1)=7 must be chosen instead.
    let vm = init_vm(
        vec![vec![1, 2, 3], vec![180, 9, 7], vec![4, 5, 6]],
        MatrixPoint(1, 1),
        Direction::East,
    );

    assert_eq!(vm.get_next_instruction(), Pixel::new(7));
}

#[test]
fn test_forward_road_is_both_road_and_forward() {
    // Heading East from the center with the forward cell itself a road:
    // the selector takes it.
    let vm = init_vm(
        vec![vec![1, 2, 3], vec![4, 9, 180], vec![5, 6, 7]],
        MatrixPoint(1, 1),
        Direction::East,
    );

    assert_eq!(vm.get_next_instruction(), Pixel::new(180));
}

#[test]
fn test_bounce_at_dead_end() {
    // Heading West from (0,0) of a single row: forward, right and left
    // are all out of bounds; the cursor bounces back onto (1,0)=2.
    let vm = init_vm(vec![vec![1, 2]], MatrixPoint(0, 0), Direction::West);

    assert_eq!(vm.get_next_instruction(), Pixel::new(2));
}

#[test]
fn test_no_road_bounces_to_lowest_priority() {
    // Heading East from the center of an all-plain grid: no road exists,
    // so the last (back) candidate (0,1)=2 is selected.
    let vm = init_vm(
        vec![vec![1, 5, 1], vec![2, 9, 3], vec![1, 4, 1]],
        MatrixPoint(1, 1),
        Direction::East,
    );

    assert_eq!(vm.get_next_instruction(), Pixel::new(2));
}

#[test]
fn test_behind_road_without_forward_is_bounced_onto() {
    // Heading North from (0,0): forward and left are out of bounds, the
    // right cell (1,0)=2 is plain and the back cell (0,1) is a road. The
    // road lies behind and forward is not the top candidate, so the
    // selector falls through to the bounce — which is the road itself.
    let vm = init_vm(
        vec![vec![1, 2], vec![180, 3]],
        MatrixPoint(0, 0),
        Direction::North,
    );

    assert_eq!(vm.get_next_instruction(), Pixel::new(180));
}

#[test]
fn test_candidate_order_and_first_candidate() {
    // Heading East from the center: candidates come in forward, right,
    // left, back order.
    let vm = init_vm(
        vec![vec![1, 5, 1], vec![2, 9, 3], vec![1, 4, 1]],
        MatrixPoint(1, 1),
        Direction::East,
    );

    let next = vm.get_next_pixels();
    assert_eq!(
        next,
        vec![
            (Direction::East, Pixel::new(3)),
            (Direction::South, Pixel::new(4)),
            (Direction::North, Pixel::new(5)),
            (Direction::West, Pixel::new(2)),
        ]
    );
    assert_eq!(vm.get_next_pixel(), (Direction::East, Pixel::new(3)));
}

#[test]
fn test_out_of_bounds_headings_are_omitted() {
    // Heading East from (1,1) at the bottom-right corner: only left (1,0) and
    // back (0,1) exist.
    let vm = init_vm(
        vec![vec![1, 6], vec![2, 9]],
        MatrixPoint(1, 1),
        Direction::East,
    );

    let next = vm.get_next_pixels();
    assert_eq!(
        next,
        vec![
            (Direction::North, Pixel::new(6)),
            (Direction::West, Pixel::new(2)),
        ]
    );
}

#[test]
fn test_degenerate_grid_has_empty_candidates() {
    // A 1x1 grid is the fatal degenerate case: every heading is out of
    // bounds, so the candidate list is empty and no next cell exists.
    let vm = init_vm(vec![vec![5]], MatrixPoint(0, 0), Direction::East);

    assert!(vm.get_next_pixels().is_empty());
}
