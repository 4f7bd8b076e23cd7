use civitdl::progress::ProgressBoard;

#[test]
fn new_board_is_empty() {
    let board = ProgressBoard::new();
    assert_eq!(board.len(), 0);
    assert_eq!(board.position("a.bin"), None);
}

#[test]
fn report_is_cut_off_at_the_total() {
    let mut board = ProgressBoard::new();
    assert_eq!(board.report("a.bin", 10, 100), (10, 100));
    assert_eq!(board.report("a.bin", 250, 100), (100, 100));
    assert_eq!(board.position("a.bin"), Some((100, 100)));
    assert_eq!(board.len(), 1);
}

#[test]
fn position_never_goes_back_within_a_transfer() {
    let mut board = ProgressBoard::new();
    assert_eq!(board.report("a.bin", 40, 100), (40, 100));
    assert_eq!(board.report("a.bin", 30, 100), (40, 100));
    assert_eq!(board.report("a.bin", 40, 100), (40, 100));
    assert_eq!(board.report("a.bin", 41, 100), (41, 100));
}

#[test]
fn another_total_starts_the_track_afresh() {
    let mut board = ProgressBoard::new();
    assert_eq!(board.report("a.bin", 40, 100), (40, 100));
    assert_eq!(board.report("a.bin", 5, 50), (5, 50));
    assert_eq!(board.len(), 1);
}

#[test]
fn two_labels_have_independent_counters() {
    let mut board = ProgressBoard::new();
    board.report("a.bin", 0, 100);
    board.report("b.bin", 0, 30);
    let mut last_a = 0;
    let mut last_b = 0;
    for step in 1..=20u64 {
        let before_b = board.position("b.bin");
        let a = board.report("a.bin", step * 7, 100);
        assert_eq!(board.position("b.bin"), before_b);
        assert!(a.0 >= last_a && a.0 <= 100 && a.1 == 100);
        last_a = a.0;

        let before_a = board.position("a.bin");
        let b = board.report("b.bin", step * 2, 30);
        assert_eq!(board.position("a.bin"), before_a);
        assert!(b.0 >= last_b && b.0 <= 30 && b.1 == 30);
        last_b = b.0;
    }
    assert_eq!(board.position("a.bin"), Some((100, 100)));
    assert_eq!(board.position("b.bin"), Some((30, 30)));
    assert_eq!(board.len(), 2);
}

#[test]
fn labels_are_compared_whole() {
    let mut board = ProgressBoard::new();
    board.report("model", 1, 10);
    board.report("model.bin", 2, 10);
    board.report("", 3, 10);
    assert_eq!(board.position("model"), Some((1, 10)));
    assert_eq!(board.position("model.bin"), Some((2, 10)));
    assert_eq!(board.position(""), Some((3, 10)));
    assert_eq!(board.position("mod"), None);
    assert_eq!(board.len(), 3);
}
