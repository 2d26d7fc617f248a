use lfuzz::error::Error;
use lfuzz::resolver::{resolve, title_found, ResolverState, WindowNode};

fn leaf(id: u64, title: Option<&str>) -> WindowNode {
    WindowNode { id, title: title.map(|t| t.to_owned()), children: Vec::new() }
}

fn node(id: u64, title: Option<&str>, children: Vec<WindowNode>) -> WindowNode {
    WindowNode { id, title: title.map(|t| t.to_owned()), children }
}

#[test]
fn resolves_root_itself() {
    let root = leaf(7, Some("Calculator"));
    let r = resolve(&root, &"Calculator".to_owned());
    assert_eq!(r.unwrap(), 7);
}

#[test]
fn resolves_first_structurally_reachable_match() {
    // Two windows carry the target title; the stack discipline examines the
    // most recently stacked window first, so among the root's children the
    // last child is visited before the first.
    let root = node(
        1,
        None,
        vec![leaf(2, Some("Calculator")), leaf(3, Some("Calculator"))],
    );
    let r = resolve(&root, &"Calculator".to_owned());
    assert_eq!(r.unwrap(), 3);
}

#[test]
fn searches_depth_first_through_last_child() {
    // The last child's whole subtree is searched before an earlier sibling.
    let root = node(
        1,
        None,
        vec![
            leaf(2, Some("Calculator")),
            node(3, None, vec![leaf(4, Some("Calculator"))]),
        ],
    );
    let r = resolve(&root, &"Calculator".to_owned());
    assert_eq!(r.unwrap(), 4);
}

#[test]
fn empty_hierarchy_fails_with_resolution_error() {
    // A root with no title and no children never resolves.
    let root = leaf(1, None);
    let r = resolve(&root, &"Calculator".to_owned());
    match r {
        Err(Error::Resolution(m)) => {
            assert_eq!(m, "Not found application: Calculator");
        }
        other => panic!("expected a resolution failure, got {:?}", other.map(|_| ())),
    }
}

#[test]
fn absent_title_in_three_node_tree_fails_naming_the_title() {
    let root = node(1, Some("Shell"), vec![leaf(2, Some("Editor")), leaf(3, None)]);
    let r = resolve(&root, &"Calculator".to_owned());
    match r {
        Err(Error::Resolution(m)) => {
            assert!(m.contains("Calculator"));
            assert_eq!(m, "Not found application: Calculator");
        }
        other => panic!("expected a resolution failure, got {:?}", other.map(|_| ())),
    }
}

#[test]
fn resolving_twice_returns_the_same_handle() {
    let root = node(
        1,
        None,
        vec![leaf(2, Some("Editor")), node(3, None, vec![leaf(4, Some("Calculator"))])],
    );
    let target = "Calculator".to_owned();
    let first = resolve(&root, &target).unwrap();
    let second = resolve(&root, &target).unwrap();
    assert_eq!(first, second);
}

#[test]
fn title_comparison_is_exact_and_case_sensitive() {
    let target = "Calculator".to_owned();
    assert!(title_found(&Some("Calculator".to_owned()), &target));
    assert!(!title_found(&Some("calculator".to_owned()), &target));
    assert!(!title_found(&Some("Calculator ".to_owned()), &target));
    assert!(!title_found(&None, &target));
}

#[test]
fn resolver_state_examines_most_recently_stacked_first() {
    let mut state = ResolverState::start(1);
    assert_eq!(state.next_window(), Some(1));
    state.stack_children(&vec![2, 3, 4]);
    assert_eq!(state.next_window(), Some(4));
    state.stack_children(&vec![5]);
    assert_eq!(state.next_window(), Some(5));
    assert_eq!(state.next_window(), Some(3));
    assert_eq!(state.next_window(), Some(2));
    assert_eq!(state.next_window(), None);
}

#[test]
fn error_message_accessor_returns_the_carried_text() {
    let e = Error::Connection("XOpenDisplay failed".to_owned());
    assert_eq!(e.message(), "XOpenDisplay failed");
    let e = Error::Resolution("Not found application: Calculator".to_owned());
    assert_eq!(e.message(), "Not found application: Calculator");
}
