use yew::node_ref::{Node, NodeRef, NodeRefs};

#[test]
fn fresh_ref_resolves_to_nothing() {
    let mut refs = NodeRefs::new();
    let r = refs.create();
    assert_eq!(r, NodeRef { index: 0 });
    assert_eq!(refs.get(r), None);
    assert_eq!(refs.get(NodeRef { index: 5 }), None);
}

#[test]
fn set_then_get() {
    let mut refs = NodeRefs::new();
    let r = refs.create();
    refs.set(r, Some(Node { id: 4 }));
    assert_eq!(refs.get(r), Some(Node { id: 4 }));
    refs.set(r, None);
    assert_eq!(refs.get(r), None);
}

#[test]
fn link_before_target_is_set() {
    let mut refs = NodeRefs::new();
    let a = refs.create();
    let b = refs.create();
    refs.link(a, b);
    assert_eq!(refs.get(a), None);
    refs.set(b, Some(Node { id: 9 }));
    assert_eq!(refs.get(a), Some(Node { id: 9 }));
    assert_eq!(refs.get(b), Some(Node { id: 9 }));
}

#[test]
fn link_after_target_is_set() {
    let mut refs = NodeRefs::new();
    let a = refs.create();
    let b = refs.create();
    refs.set(b, Some(Node { id: 2 }));
    refs.set(a, Some(Node { id: 1 }));
    refs.link(a, b);
    assert_eq!(refs.get(a), Some(Node { id: 2 }));
}

#[test]
fn chain_of_links_resolves_to_the_end() {
    let mut refs = NodeRefs::new();
    let a = refs.create();
    let b = refs.create();
    let c = refs.create();
    refs.link(a, b);
    refs.link(b, c);
    refs.set(c, Some(Node { id: 8 }));
    assert_eq!(refs.get(a), Some(Node { id: 8 }));
}

#[test]
fn linking_to_itself_changes_nothing() {
    let mut refs = NodeRefs::new();
    let a = refs.create();
    refs.set(a, Some(Node { id: 3 }));
    refs.link(a, a);
    assert_eq!(refs.get(a), Some(Node { id: 3 }));
}

#[test]
fn a_loop_of_links_resolves_to_nothing() {
    let mut refs = NodeRefs::new();
    let a = refs.create();
    let b = refs.create();
    refs.link(a, b);
    refs.link(b, a);
    assert_eq!(refs.get(a), None);
    assert_eq!(refs.get(b), None);
}
