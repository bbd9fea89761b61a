use recipe_client::toasts::{push_toast, remove_toast, Toast, ToastChange, Toasts, TOAST_TIMEOUT_MS};

fn toast(text: &str) -> Toast {
    Toast { message: String::from(text) }
}

fn messages(q: &Toasts) -> Vec<String> {
    q.inner.iter().map(|t| t.message.clone()).collect()
}

#[test]
fn push_appends_in_display_order() {
    let mut q = Toasts::new();
    push_toast(&mut q, toast("first"));
    push_toast(&mut q, toast("second"));
    assert_eq!(messages(&q), vec!["first".to_string(), "second".to_string()]);
}

#[test]
fn identical_pushes_yield_two_entries() {
    let mut q = Toasts::new();
    push_toast(&mut q, toast("same"));
    push_toast(&mut q, toast("same"));
    assert_eq!(q.inner.len(), 2);
}

#[test]
fn remove_deletes_the_first_match() {
    let mut q = Toasts::new();
    push_toast(&mut q, toast("a"));
    push_toast(&mut q, toast("b"));
    push_toast(&mut q, toast("a"));
    remove_toast(&mut q, toast("a"));
    assert_eq!(messages(&q), vec!["b".to_string(), "a".to_string()]);
}

#[test]
fn remove_of_an_absent_value_is_a_no_op() {
    let mut q = Toasts::new();
    push_toast(&mut q, toast("kept"));
    remove_toast(&mut q, toast("missing"));
    assert_eq!(messages(&q), vec!["kept".to_string()]);
}

#[test]
fn remove_twice_equals_remove_once_without_duplicates() {
    // The idempotence law, on a queue that holds the removed message once.
    let mut once = Toasts::new();
    push_toast(&mut once, toast("x"));
    push_toast(&mut once, toast("y"));
    let mut twice = once.clone();
    remove_toast(&mut once, toast("x"));
    remove_toast(&mut twice, toast("x"));
    remove_toast(&mut twice, toast("x"));
    assert_eq!(messages(&once), messages(&twice));
    assert_eq!(messages(&once), vec!["y".to_string()]);
}

#[test]
fn reduce_applies_changes() {
    let mut q = Toasts::new();
    q.reduce(ToastChange::Push(toast("one")));
    q.reduce(ToastChange::Remove(toast("one")));
    assert_eq!(q.inner.len(), 0);
}

#[test]
fn expiry_delay_is_six_seconds() {
    assert_eq!(TOAST_TIMEOUT_MS, 6000);
}
