use gridvm::Direction;
use gridvm::Instruction;
use gridvm::Matrix;
use gridvm::MatrixPoint;
use gridvm::Pixel;

fn init_matrix(pixels: Vec<Vec<u16>>) -> Matrix {
    Matrix::new(
        pixels
            .iter()
            .map(|row| row.iter().map(|p| Pixel::new(*p)).collect())
            .collect(),
    )
}

#[test]
fn test_as_instruction_start() {
    assert_eq!(Pixel::new(300).as_instruction(), Instruction::Start);
}

#[test]
fn test_as_instruction_road() {
    assert_eq!(Pixel::new(180).as_instruction(), Instruction::Road);
}

#[test]
fn test_as_instruction_unknown_numeral_is_other() {
    assert_eq!(Pixel::new(7).as_instruction(), Instruction::Other(7));
    assert_eq!(Pixel::new(0).as_instruction(), Instruction::Other(0));
    assert_eq!(Pixel::new(u16::MAX).as_instruction(), Instruction::Other(u16::MAX));
}

#[test]
fn test_go_within_bounds() {
    let m = init_matrix(vec![vec![1, 2, 3], vec![4, 5, 6], vec![7, 8, 9]]);
    let center = MatrixPoint(1, 1);

    assert_eq!(m.go(center, Direction::North), Some(Pixel::new(2)));
    assert_eq!(m.go(center, Direction::South), Some(Pixel::new(8)));
    assert_eq!(m.go(center, Direction::East), Some(Pixel::new(6)));
    assert_eq!(m.go(center, Direction::West), Some(Pixel::new(4)));
}

#[test]
fn test_go_out_of_bounds_is_none() {
    let m = init_matrix(vec![vec![1, 2], vec![3, 4]]);

    assert_eq!(m.go(MatrixPoint(0, 0), Direction::North), None);
    assert_eq!(m.go(MatrixPoint(0, 0), Direction::West), None);
    assert_eq!(m.go(MatrixPoint(1, 1), Direction::South), None);
    assert_eq!(m.go(MatrixPoint(1, 1), Direction::East), None);
}

#[test]
fn test_go_respects_ragged_rows() {
    // row 0 has three cells, row 1 only one
    let m = init_matrix(vec![vec![1, 2, 3], vec![4]]);

    assert_eq!(m.go(MatrixPoint(0, 1), Direction::East), None);
    assert_eq!(m.go(MatrixPoint(1, 0), Direction::South), None);
    assert_eq!(m.go(MatrixPoint(0, 0), Direction::South), Some(Pixel::new(4)));
    assert_eq!(m.go(MatrixPoint(2, 0), Direction::West), Some(Pixel::new(2)));
}

#[test]
fn test_at_and_sizes() {
    let m = init_matrix(vec![vec![1, 2, 3], vec![4]]);

    assert_eq!(m.num_rows(), 2);
    assert_eq!(m.row_len(0), 3);
    assert_eq!(m.row_len(1), 1);
    assert_eq!(m.at(2, 0), Some(Pixel::new(3)));
    assert_eq!(m.at(1, 1), None);
    assert_eq!(m.at(0, 2), None);
}
