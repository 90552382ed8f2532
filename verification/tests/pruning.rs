use spade_docker::meta::Meta;
use spade_docker::prune::{InspectFailurePolicy, PruneRun};
use spade_docker::record::Store;

fn s(x: &str) -> String {
    String::from(x)
}

fn owned_meta() -> Meta {
    Meta::List(vec![Meta::Object(vec![(
        s("Config"),
        Meta::Object(vec![(
            s("Labels"),
            Meta::Object(vec![(s("tool"), Meta::Text(s("spade-docker")))]),
        )]),
    )])])
}

fn unowned_meta() -> Meta {
    Meta::List(vec![Meta::Object(vec![])])
}

#[test]
fn removal_persists_the_suffix_and_drops_skipped_entries() {
    let mut store = Store::from_content(Some(s("a\nb\nc")));
    let mut run = PruneRun::new(store.load());

    // a: inspected, not owned, skipped.
    assert_eq!(run.current(), Some(s("a")));
    assert!(!run.decide(&unowned_meta()));

    // b: owned; the remover succeeds; the suffix after b is persisted.
    assert_eq!(run.current(), Some(s("b")));
    assert!(run.decide(&owned_meta()));
    let remaining = run.note_removed();
    assert_eq!(remaining, vec![s("c")]);
    store.replace(&remaining);

    // c: owned; the remover fails; nothing is persisted.
    assert_eq!(run.current(), Some(s("c")));
    assert!(run.decide(&owned_meta()));
    run.note_remove_failed();

    assert_eq!(run.current(), None);
    assert_eq!(store.content(), Some(&s("c")));
    assert_eq!(store.load(), vec![s("c")]);
}

#[test]
fn fatal_policy_aborts_on_inspect_failure() {
    let mut run = PruneRun::new(vec![s("a"), s("b")]);
    assert_eq!(run.current(), Some(s("a")));
    let outcome = run.note_inspect_failed(InspectFailurePolicy::Fatal);
    assert_eq!(outcome, None);
    // The run did not move: the caller aborts here.
    assert_eq!(run.current(), Some(s("a")));
}

#[test]
fn assume_removed_policy_shrinks_like_a_removal() {
    let mut run = PruneRun::new(vec![s("a"), s("b"), s("c")]);
    assert_eq!(run.current(), Some(s("a")));
    let outcome = run.note_inspect_failed(InspectFailurePolicy::AssumeRemoved);
    assert_eq!(outcome, Some(vec![s("b"), s("c")]));
    assert_eq!(run.current(), Some(s("b")));
}

#[test]
fn run_over_empty_log_is_done_at_once() {
    let run = PruneRun::new(Vec::new());
    assert_eq!(run.current(), None);
}
