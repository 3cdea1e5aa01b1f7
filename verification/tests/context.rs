use model_host::argument::Argument;
use model_host::context::ArgumentContext;

fn argument(key: &str, value: &str) -> Argument {
    Argument { key: key.to_string(), value: value.to_string() }
}

#[test]
fn a_new_context_holds_nothing() {
    let context = ArgumentContext::new();
    assert_eq!(context.get("width"), None);
    assert_eq!(context.get(""), None);
}

#[test]
fn a_key_that_was_never_set_is_absent() {
    let mut context = ArgumentContext::new();
    context.set_many(&[argument("width", "2")]);
    assert_eq!(context.get("depth"), None);
    assert_eq!(context.get("Width"), None);
}

#[test]
fn what_was_merged_reads_back() {
    let mut context = ArgumentContext::new();
    context.set_many(&[argument("width", "2"), argument("depth", "3")]);
    assert_eq!(context.get("width"), Some("2".to_string()));
    assert_eq!(context.get("depth"), Some("3".to_string()));
}

#[test]
fn the_last_write_to_a_key_wins() {
    let mut context = ArgumentContext::new();
    context.set_many(&[argument("width", "1"), argument("depth", "3"), argument("width", "2")]);
    assert_eq!(context.get("width"), Some("2".to_string()));
    assert_eq!(context.get("depth"), Some("3".to_string()));
}

#[test]
fn a_later_merge_overwrites_and_keeps_the_rest() {
    let mut context = ArgumentContext::new();
    context.set_many(&[argument("width", "1"), argument("depth", "3")]);
    context.set_many(&[argument("width", "5")]);
    assert_eq!(context.get("width"), Some("5".to_string()));
    assert_eq!(context.get("depth"), Some("3".to_string()));
}

#[test]
fn merging_nothing_changes_nothing() {
    let mut context = ArgumentContext::new();
    context.set("width".to_string(), "1".to_string());
    context.set_many(&[]);
    assert_eq!(context.get("width"), Some("1".to_string()));
}

#[test]
fn merging_the_same_pairs_again_changes_nothing() {
    let pairs = [argument("a", "1"), argument("b", "2"), argument("a", "3")];
    let mut context = ArgumentContext::new();
    context.set_many(&pairs);
    context.set_many(&pairs);
    assert_eq!(context.get("a"), Some("3".to_string()));
    assert_eq!(context.get("b"), Some("2".to_string()));
}

#[test]
fn set_replaces_one_value() {
    let mut context = ArgumentContext::new();
    context.set("k".to_string(), "old".to_string());
    context.set("k".to_string(), "new".to_string());
    assert_eq!(context.get("k"), Some("new".to_string()));
}

#[test]
fn the_empty_key_is_a_key_like_any_other() {
    let mut context = ArgumentContext::new();
    context.set_many(&[argument("", "nothing")]);
    assert_eq!(context.get(""), Some("nothing".to_string()));
}
