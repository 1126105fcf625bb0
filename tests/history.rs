use textgen_api::error::ChatError;
use textgen_api::history::History;

fn pair(a: &str, b: &str) -> Vec<String> {
    vec![a.to_string(), b.to_string()]
}

#[test]
fn undo_on_empty_history_is_a_no_op() {
    let mut h = History::default();
    let r = h.undo();
    assert!(h.internal.is_empty());
    assert!(h.visible.is_empty());
    assert!(r.internal.is_empty());
    assert!(r.visible.is_empty());
}

#[test]
fn undo_removes_one_turn_pair_from_both_lists() {
    let turns = vec![pair("a", "b"), pair("c", "d")];
    let mut h = History::new(turns.clone(), turns);
    let r = h.undo();
    assert_eq!(h.internal, vec![pair("a", "b")]);
    assert_eq!(h.visible, vec![pair("a", "b")]);
    assert_eq!(r.internal, vec![pair("a", "b")]);
    assert_eq!(r.visible, vec![pair("a", "b")]);
}

#[test]
fn undo_twice_empties_a_two_turn_history() {
    let turns = vec![pair("a", "b"), pair("c", "d")];
    let mut h = History::new(turns.clone(), turns);
    h.undo();
    let r = h.undo();
    assert!(r.internal.is_empty());
    assert!(r.visible.is_empty());
}

#[test]
fn last_returns_reply_of_final_turn() {
    let h = History::new(vec![pair("hi", "hello there")], vec![pair("hi", "hello there")]);
    assert_eq!(h.last(), Ok(Some("hello there".to_string())));
}

#[test]
fn last_of_several_turns_reads_the_newest() {
    let h = History::new(vec![pair("a", "b"), pair("c", "d")], vec![]);
    assert_eq!(h.last(), Ok(Some("d".to_string())));
}

#[test]
fn last_on_empty_history_is_nothing() {
    assert_eq!(History::default().last(), Ok(None));
}

#[test]
fn last_on_short_pair_is_malformed() {
    let h = History::new(vec![vec!["only".to_string()]], vec![]);
    assert_eq!(h.last(), Err(ChatError::MalformedHistory));
}

#[test]
fn duplicate_keeps_both_lists() {
    let h = History::new(vec![pair("x", "y")], vec![pair("x", "<b>y</b>")]);
    let d = h.duplicate();
    assert_eq!(d.internal, vec![pair("x", "y")]);
    assert_eq!(d.visible, vec![pair("x", "<b>y</b>")]);
}
