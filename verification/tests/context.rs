use srcfmt::context::Context;

#[test]
fn new_context_has_no_indentation() {
    assert_eq!(Context::new().indent(), "");
}

#[test]
fn default_context_is_a_new_one() {
    assert_eq!(Context::default(), Context::new());
}

#[test]
fn each_level_indents_by_four_spaces() {
    let cx = Context::new();
    let one = cx.deeper();
    let two = one.deeper();
    assert_eq!(one.indent(), "    ");
    assert_eq!(two.indent(), "        ");
    assert_eq!(two.deeper().indent().len(), 12);
}

#[test]
fn deeper_leaves_the_context_it_is_called_on() {
    let cx = Context::new();
    let inner = cx.deeper();
    assert_eq!(cx.indent(), "");
    assert_ne!(cx, inner);
    assert_eq!(inner.clone(), inner);
}

#[test]
fn depth_stops_at_255() {
    let mut cx = Context::new();
    for _ in 0..255 {
        cx = cx.deeper();
    }
    assert_eq!(cx.indent().len(), 1020);
    assert!(cx.indent().chars().all(|c| c == ' '));
    let further = cx.deeper();
    assert_eq!(further, cx);
    assert_eq!(further.indent().len(), 1020);
}
