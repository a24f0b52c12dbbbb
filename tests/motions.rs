use termgfx::modal::Operator;

#[test]
fn test_operator_parsing() {
    assert_eq!(Operator::from_char('d'), Some(Operator::Delete));
    assert_eq!(Operator::from_char('y'), Some(Operator::Yank));
    assert_eq!(Operator::from_char('c'), Some(Operator::Change));
    assert_eq!(Operator::from_char('x'), None);
}

