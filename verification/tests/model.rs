use gridpad::CommandBuffer;
use gridpad::Direction;
use gridpad::Grid;
use gridpad::InputMode;

#[test]
fn mode_names() {
    assert_eq!(InputMode::Cmd.name(), "cmd");
    assert_eq!(InputMode::Key.name(), "mov");
}

#[test]
fn mode_toggle_is_symmetric() {
    assert_eq!(InputMode::Key.next(), InputMode::Cmd);
    assert_eq!(InputMode::Cmd.next(), InputMode::Key);
    assert_eq!(InputMode::Key.next().next(), InputMode::Key);
    assert_eq!(InputMode::Cmd.next().next(), InputMode::Cmd);
}

#[test]
fn grid_starts_centred() {
    let g = Grid::new(16, 8);
    assert_eq!((g.col, g.row), (8, 4));
    assert_eq!((g.cols, g.rows), (16, 8));
}

#[test]
fn grid_clamps_at_every_edge() {
    let mut g = Grid::new(3, 3);
    assert_eq!((g.col, g.row), (1, 1));
    g.step(Direction::Left);
    g.step(Direction::Left);
    assert_eq!((g.col, g.row), (0, 1));
    g.step(Direction::Left);
    assert_eq!((g.col, g.row), (0, 1));
    g.step(Direction::Up);
    g.step(Direction::Up);
    assert_eq!((g.col, g.row), (0, 0));
    g.step(Direction::Up);
    assert_eq!((g.col, g.row), (0, 0));
    g.step(Direction::Right);
    g.step(Direction::Right);
    g.step(Direction::Right);
    assert_eq!((g.col, g.row), (2, 0));
    g.step(Direction::Down);
    g.step(Direction::Down);
    g.step(Direction::Down);
    assert_eq!((g.col, g.row), (2, 2));
}

#[test]
fn one_by_one_grid_never_moves() {
    let mut g = Grid::new(1, 1);
    for d in [Direction::Up, Direction::Down, Direction::Left, Direction::Right] {
        g.step(d);
        assert_eq!((g.col, g.row), (0, 0));
    }
}

#[test]
fn long_walk_stays_in_bounds() {
    let mut g = Grid::new(4, 3);
    let walk = [
        Direction::Left,
        Direction::Left,
        Direction::Up,
        Direction::Up,
        Direction::Right,
        Direction::Down,
        Direction::Down,
        Direction::Down,
        Direction::Right,
        Direction::Right,
        Direction::Right,
        Direction::Up,
        Direction::Left,
        Direction::Down,
    ];
    for _ in 0..10 {
        for d in walk {
            g.step(d);
            assert!(g.col < g.cols);
            assert!(g.row < g.rows);
        }
    }
}

#[test]
fn buffer_insert_then_delete_restores_empty() {
    let mut b = CommandBuffer::new();
    let typed = ['s', 'a', 'v', 'e', ' ', 'm', 'e'];
    for c in typed {
        b.insert(c);
    }
    assert_eq!(b.len(), typed.len());
    for _ in 0..typed.len() {
        b.delete_last();
    }
    assert_eq!(b.len(), 0);
    assert_eq!(b.contents(), "");
}

#[test]
fn buffer_delete_on_empty_is_a_no_op() {
    let mut b = CommandBuffer::new();
    b.delete_last();
    assert_eq!(b.contents(), "");
    b.insert('x');
    b.delete_last();
    b.delete_last();
    assert_eq!(b.contents(), "");
}

#[test]
fn buffer_contents_in_order() {
    let mut b = CommandBuffer::new();
    b.insert('a');
    b.insert('b');
    b.insert('c');
    assert_eq!(b.contents(), "abc");
    assert_eq!(b.as_chars().as_slice(), ['a', 'b', 'c']);
    b.delete_last();
    assert_eq!(b.contents(), "ab");
    b.clear();
    assert_eq!(b.contents(), "");
}

#[test]
fn buffer_accepts_any_character() {
    let mut b = CommandBuffer::new();
    b.insert('@');
    b.insert('\t');
    b.insert('é');
    assert_eq!(b.contents(), "@\té");
}
