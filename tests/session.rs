use chess_notation::session::try_again_answer;

#[test]
fn answers_yes_and_no() {
    assert_eq!(Some(true), try_again_answer("y"));
    assert_eq!(Some(false), try_again_answer("n"));
    assert_eq!(Some(true), try_again_answer("  y\n"));
    assert_eq!(Some(false), try_again_answer("n\r\n"));
}

#[test]
fn other_answers_ask_again() {
    assert_eq!(None, try_again_answer(""));
    assert_eq!(None, try_again_answer("Y"));
    assert_eq!(None, try_again_answer("yes"));
    assert_eq!(None, try_again_answer("y n"));
    assert_eq!(None, try_again_answer("\n"));
}
