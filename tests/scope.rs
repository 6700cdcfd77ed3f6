use std::cell::RefCell;
use std::rc::Rc;

use yew::node_ref::{Element, Node, NodeRef};
use yew::scope::{
    AnyScope, Component, ComponentKind, ComponentUpdate, Runtime, Scope, VDiff,
};

type Log = Rc<RefCell<Vec<String>>>;

struct Props {
    log: Log,
    node: Option<u64>,
    child: Option<NodeRef>,
}

struct Probe {
    log: Log,
    node: Option<u64>,
    child: Option<NodeRef>,
}

struct Tree {
    log: Log,
    node: Option<u64>,
    child: Option<NodeRef>,
}

impl VDiff for Tree {
    fn apply(
        &mut self,
        _parent_scope: &AnyScope,
        parent: &Element,
        _next_sibling: Option<Node>,
        ancestor: Option<Self>,
    ) -> Option<Node> {
        self.log.borrow_mut().push(format!(
            "apply {} {}",
            parent.id,
            if ancestor.is_some() { "patch" } else { "fresh" }
        ));
        self.node.map(|id| Node { id })
    }

    fn applied(
        &self,
        _parent_scope: AnyScope,
        _parent: Element,
        _next_sibling: Option<Node>,
        _ancestor: Option<Self>,
        _next: Self,
        r: Option<Node>,
    ) -> bool {
        r == self.node.map(|id| Node { id })
    }

    fn detached(&self, _parent: Element, next: Self) -> bool {
        next.node == self.node
    }

    fn root_component_ref(&self) -> Option<NodeRef> {
        self.child
    }

    fn detach(&mut self, parent: &Element) {
        self.log.borrow_mut().push(format!("detach {}", parent.id));
    }

    fn component_node_ref(&self) -> Option<NodeRef> {
        self.child
    }
}

impl Component for Probe {
    type Message = bool;
    type Properties = Props;
    type Root = Tree;

    fn created(props: Props, _scope: Scope<Self>, c: Self) -> bool {
        c.node == props.node && c.child == props.child
    }

    fn updated(&self, msg: bool, next: Self, r: bool) -> bool {
        r == msg && next.node == self.node
    }

    fn changed(&self, props: Props, next: Self, r: bool) -> bool {
        r && next.node == props.node && next.child == props.child
    }

    fn viewed(&self, root: Tree) -> bool {
        root.node == self.node && root.child == self.child
    }

    fn notified(&self, _first_render: bool, next: Self) -> bool {
        next.node == self.node
    }

    fn torn_down(&self, next: Self) -> bool {
        next.node == self.node
    }

    fn create(props: Props, _scope: Scope<Self>) -> Self {
        props.log.borrow_mut().push("create".to_string());
        Probe { log: props.log, node: props.node, child: props.child }
    }

    fn update(&mut self, msg: bool) -> bool {
        self.log.borrow_mut().push(format!("update {}", msg));
        msg
    }

    fn change(&mut self, props: Props) -> bool {
        self.log.borrow_mut().push("change".to_string());
        self.node = props.node;
        self.child = props.child;
        true
    }

    fn view(&self) -> Tree {
        self.log.borrow_mut().push("view".to_string());
        Tree { log: self.log.clone(), node: self.node, child: self.child }
    }

    fn rendered(&mut self, first_render: bool) {
        self.log.borrow_mut().push(format!("rendered {}", first_render));
    }

    fn destroy(&mut self) {
        self.log.borrow_mut().push("destroy".to_string());
    }
}

const PROBE: ComponentKind = ComponentKind { id: 7 };

fn drain(rt: &mut Runtime<Probe>) {
    while rt.run_next() {}
}

fn entries(log: &Log) -> Vec<String> {
    log.borrow().clone()
}

fn count(log: &Log, entry: &str) -> usize {
    log.borrow().iter().filter(|e| e.as_str() == entry).count()
}

fn mounted(node: Option<u64>) -> (Runtime<Probe>, Scope<Probe>, NodeRef, Log) {
    let log: Log = Rc::new(RefCell::new(Vec::new()));
    let mut rt: Runtime<Probe> = Runtime::new(PROBE);
    let own = rt.create_node_ref();
    let scope: Scope<Probe> = Scope::new(&mut rt, None);
    let props = Props { log: log.clone(), node, child: None };
    let scope = scope.mount_in_place(&mut rt, Element { id: 1 }, None, own, props);
    (rt, scope, own, log)
}

#[test]
fn mount_then_message_and_batch_renders_once_per_update() {
    let (mut rt, scope, _own, log) = mounted(Some(10));
    scope.send_message(&mut rt, true);
    scope.send_message_batch(&mut rt, vec![false, true]);
    drain(&mut rt);
    assert_eq!(
        entries(&log),
        vec![
            "create", "view", "apply 1 fresh", "update true", "view", "apply 1 patch",
            "update false", "update true", "view", "apply 1 patch", "rendered true",
        ]
    );
    assert_eq!(count(&log, "rendered true") + count(&log, "rendered false"), 1);
}

#[test]
fn mount_renders_before_a_later_message() {
    let (mut rt, scope, _own, log) = mounted(None);
    scope.send_message(&mut rt, false);
    assert!(rt.run_next());
    assert_eq!(entries(&log), vec!["create", "view", "apply 1 fresh"]);
    drain(&mut rt);
    assert_eq!(count(&log, "view"), 1);
    assert_eq!(count(&log, "update false"), 1);
    assert_eq!(count(&log, "rendered true"), 1);
}

#[test]
fn batch_applies_every_message_without_short_circuit() {
    let (mut rt, scope, _own, log) = mounted(None);
    drain(&mut rt);
    log.borrow_mut().clear();
    scope.send_message_batch(&mut rt, vec![true, false, false]);
    drain(&mut rt);
    assert_eq!(
        entries(&log),
        vec!["update true", "update false", "update false", "view", "apply 1 patch", "rendered false"]
    );
}

#[test]
fn batch_of_false_does_not_render() {
    let (mut rt, scope, _own, log) = mounted(None);
    drain(&mut rt);
    log.borrow_mut().clear();
    scope.send_message_batch(&mut rt, vec![false, false]);
    drain(&mut rt);
    assert_eq!(entries(&log), vec!["update false", "update false"]);
}

#[test]
fn empty_batch_does_not_render() {
    let (mut rt, scope, _own, log) = mounted(None);
    drain(&mut rt);
    log.borrow_mut().clear();
    scope.send_message_batch(&mut rt, Vec::new());
    drain(&mut rt);
    assert!(entries(&log).is_empty());
}

#[test]
fn rendered_twice_fires_hook_once() {
    let (mut rt, scope, _own, log) = mounted(None);
    drain(&mut rt);
    scope.rendered(&mut rt, false);
    scope.rendered(&mut rt, false);
    drain(&mut rt);
    assert_eq!(count(&log, "rendered true"), 1);
    assert_eq!(count(&log, "rendered false"), 0);
    scope.send_message(&mut rt, true);
    scope.rendered(&mut rt, false);
    drain(&mut rt);
    assert_eq!(count(&log, "rendered false"), 1);
}

#[test]
fn stale_update_after_destroy_is_a_no_op() {
    let (mut rt, mut scope, _own, log) = mounted(Some(3));
    drain(&mut rt);
    scope.send_message(&mut rt, true);
    scope.destroy(&mut rt);
    drain(&mut rt);
    assert_eq!(count(&log, "update true"), 0);
    assert_eq!(count(&log, "destroy"), 1);
    assert_eq!(count(&log, "detach 1"), 1);
    assert!(scope.get_component(&rt).is_none());
}

#[test]
fn destroy_before_first_render_detaches_nothing() {
    let (mut rt, mut scope, _own, log) = mounted(None);
    scope.destroy(&mut rt);
    drain(&mut rt);
    assert_eq!(entries(&log), vec!["create", "destroy"]);
}

#[test]
fn render_sets_the_component_node_ref() {
    let (mut rt, _scope, own, _log) = mounted(Some(42));
    assert_eq!(rt.resolve_node_ref(own), None);
    drain(&mut rt);
    assert_eq!(rt.resolve_node_ref(own), Some(Node { id: 42 }));
}

#[test]
fn properties_update_links_new_ref_to_component_ref() {
    let (mut rt, scope, own, log) = mounted(None);
    drain(&mut rt);
    let parent_ref = rt.create_node_ref();
    let props = Props { log: log.clone(), node: Some(5), child: None };
    scope.update(&mut rt, ComponentUpdate::Properties(props, parent_ref), false);
    drain(&mut rt);
    assert_eq!(count(&log, "change"), 1);
    assert_eq!(rt.resolve_node_ref(parent_ref), Some(Node { id: 5 }));
    assert_eq!(rt.resolve_node_ref(own), Some(Node { id: 5 }));
}

#[test]
fn nested_component_root_links_to_child_ref() {
    let log: Log = Rc::new(RefCell::new(Vec::new()));
    let mut rt: Runtime<Probe> = Runtime::new(PROBE);
    let own = rt.create_node_ref();
    let child_ref = rt.create_node_ref();
    let parent: Scope<Probe> = Scope::new(&mut rt, None);
    let props = Props { log: log.clone(), node: None, child: Some(child_ref) };
    let parent = parent.mount_in_place(&mut rt, Element { id: 2 }, None, own, props);
    drain(&mut rt);
    assert_eq!(rt.resolve_node_ref(own), None);
    let child: Scope<Probe> = Scope::new(&mut rt, Some(parent.into()));
    let props = Props { log: log.clone(), node: Some(77), child: None };
    let _child = child.mount_in_place(&mut rt, Element { id: 3 }, None, child_ref, props);
    drain(&mut rt);
    assert_eq!(rt.resolve_node_ref(child_ref), Some(Node { id: 77 }));
    assert_eq!(rt.resolve_node_ref(own), Some(Node { id: 77 }));
}

#[test]
fn get_component_only_while_mounted() {
    let log: Log = Rc::new(RefCell::new(Vec::new()));
    let mut rt: Runtime<Probe> = Runtime::new(PROBE);
    let own = rt.create_node_ref();
    let scope: Scope<Probe> = Scope::new(&mut rt, None);
    assert!(scope.get_component(&rt).is_none());
    let props = Props { log: log.clone(), node: Some(9), child: None };
    let mut scope = scope.mount_in_place(&mut rt, Element { id: 1 }, None, own, props);
    assert_eq!(scope.get_component(&rt).map(|c| c.node), Some(Some(9)));
    scope.destroy(&mut rt);
    drain(&mut rt);
    assert!(scope.get_component(&rt).is_none());
}

#[test]
fn downcast_checks_the_kind() {
    let mut rt: Runtime<Probe> = Runtime::new(PROBE);
    let root: Scope<Probe> = Scope::new(&mut rt, None);
    let root_any: AnyScope = root.clone().into();
    let child: Scope<Probe> = Scope::new(&mut rt, Some(root_any.clone()));
    assert_eq!(child.get_parent().map(|p| p.cell), Some(root.cell));
    assert!(root.get_parent().is_none());
    let any: AnyScope = child.clone().into();
    assert_eq!(*any.get_type_id(), PROBE);
    assert_eq!(any.get_parent().map(|p| p.cell), Some(0));
    assert!(any.clone().downcast::<Probe>(ComponentKind { id: 8 }).is_none());
    let back = any.downcast::<Probe>(PROBE).expect("same kind");
    assert_eq!(back.cell, child.cell);
    assert_eq!(back.get_parent().map(|p| p.cell), Some(0));
}

#[test]
fn callbacks_only_enqueue() {
    let (mut rt, scope, _own, log) = mounted(None);
    drain(&mut rt);
    log.borrow_mut().clear();
    let cb = scope.callback(|n: u32| n > 2);
    cb.emit(&mut rt, 5);
    cb.emit(&mut rt, 1);
    assert!(entries(&log).is_empty());
    let once = scope.callback_once(move |s: String| s.is_empty());
    once.emit(&mut rt, String::new());
    let batch = scope.batch_callback(|n: usize| vec![false; n]);
    batch.emit(&mut rt, 2);
    assert!(entries(&log).is_empty());
    drain(&mut rt);
    assert_eq!(
        entries(&log),
        vec![
            "update true", "view", "apply 1 patch", "update false", "update true", "view",
            "apply 1 patch", "update false", "update false", "rendered false",
        ]
    );
}
