//! Component scopes, the state record of a mounted component, and the units
//! of scheduled work (update, post-render, destroy) that act on it.
use vstd::prelude::*;
use std::collections::VecDeque;
use std::marker::PhantomData;
use crate::node_ref::{Element, Node, NodeRef, NodeRefs, NodeRefSlot, slots_link, slots_set};

verus! {

/// The tag that tells component types apart behind an [`AnyScope`].
#[derive(Clone, Copy, PartialEq, Eq, Structural, Debug)]
pub struct ComponentKind {
    pub id: u64,
}

/// A virtual tree, as the diff/patch engine sees it.
pub trait VDiff: Sized {
    /// `next` is this tree once `apply` patched the DOM under `parent` from
    /// `ancestor`, and `r` is what `apply` returned.
    spec fn applied(
        &self,
        parent_scope: AnyScope,
        parent: Element,
        next_sibling: Option<Node>,
        ancestor: Option<Self>,
        next: Self,
        r: Option<Node>,
    ) -> bool;

    /// `next` is this tree once `detach` removed it from `parent`.
    spec fn detached(&self, parent: Element, next: Self) -> bool;

    /// Where the root of this tree is a nested component, that component's
    /// node reference.
    spec fn root_component_ref(&self) -> Option<NodeRef>;

    /// Patches the DOM under `parent` from `ancestor` to this tree and returns
    /// the concrete node the tree resolved to, if any.
    fn apply(
        &mut self,
        parent_scope: &AnyScope,
        parent: &Element,
        next_sibling: Option<Node>,
        ancestor: Option<Self>,
    ) -> (r: Option<Node>)
        ensures
            old(self).applied(*parent_scope, *parent, next_sibling, ancestor, *final(self), r),
    ;

    /// Removes this tree, and everything nested in it, from `parent`.
    fn detach(&mut self, parent: &Element)
        ensures
            old(self).detached(*parent, *final(self)),
    ;

    /// Where the root of this tree is a nested component, that component's
    /// node reference.
    fn component_node_ref(&self) -> (r: Option<NodeRef>)
        ensures
            r == self.root_component_ref(),
    ;
}

/// The hooks of a component, implemented by its author. Each hook is
/// described by a relation between the instance before and after it.
pub trait Component: Sized {
    type Message;
    type Properties;
    type Root: VDiff;

    /// `c` is what `create` builds from `props` and `scope`.
    spec fn created(props: Self::Properties, scope: Scope<Self>, c: Self) -> bool;

    /// `next` is this instance once `update` applied `msg` and returned `r`.
    spec fn updated(&self, msg: Self::Message, next: Self, r: bool) -> bool;

    /// `next` is this instance once `change` took `props` and returned `r`.
    spec fn changed(&self, props: Self::Properties, next: Self, r: bool) -> bool;

    /// `root` is the tree that `view` builds from this instance.
    spec fn viewed(&self, root: Self::Root) -> bool;

    /// `next` is this instance once `rendered` was called with `first_render`.
    spec fn notified(&self, first_render: bool, next: Self) -> bool;

    /// `next` is this instance once `destroy` tore it down.
    spec fn torn_down(&self, next: Self) -> bool;

    /// Builds the component from its properties and its own scope.
    fn create(props: Self::Properties, scope: Scope<Self>) -> (r: Self)
        ensures
            Self::created(props, scope, r),
    ;

    /// Applies a message; returns whether the component must render again.
    fn update(&mut self, msg: Self::Message) -> (r: bool)
        ensures
            old(self).updated(msg, *final(self), r),
    ;

    /// Takes new properties; returns whether the component must render again.
    fn change(&mut self, props: Self::Properties) -> (r: bool)
        ensures
            old(self).changed(props, *final(self), r),
    ;

    /// Builds the virtual tree of the current state.
    fn view(&self) -> (r: Self::Root)
        ensures
            self.viewed(r),
    ;

    /// Called once after each render has been applied.
    fn rendered(&mut self, first_render: bool)
        ensures
            old(self).notified(first_render, *final(self)),
    ;

    /// Called once when the component is torn down.
    fn destroy(&mut self)
        ensures
            old(self).torn_down(*final(self)),
    ;
}

/// A call of a component hook, as recorded in a runtime's history.
pub enum Hook<M, P> {
    Create { cell: usize },
    Update { cell: usize, message: M, should_render: bool },
    Change { cell: usize, props: P, should_render: bool },
    View { cell: usize },
    Rendered { cell: usize, first_render: bool },
    Destroy { cell: usize },
}

/// Untyped scope used for accessing parent scopes.
#[derive(Debug)]
pub struct AnyScope {
    pub type_id: ComponentKind,
    pub parent: Option<Box<AnyScope>>,
    pub cell: usize,
}

/// A handle through which messages and lifecycle events are scheduled for
/// one component. Clones share the component's state cell.
#[derive(Debug)]
pub struct Scope<C> {
    pub type_id: ComponentKind,
    pub parent: Option<Box<AnyScope>>,
    pub cell: usize,
    pub marker: PhantomData<C>,
}

/// Updates for a component instance.
pub enum ComponentUpdate<C: Component> {
    /// Render unconditionally.
    Force,
    /// One message.
    Message(C::Message),
    /// Messages applied in order.
    MessageBatch(Vec<C::Message>),
    /// New properties, and the node reference that is to forward to the
    /// component's own.
    Properties(C::Properties, NodeRef),
}

/// The state record of a mounted component.
pub struct ComponentState<C: Component> {
    element: Element,
    node_ref: NodeRef,
    scope: Scope<C>,
    component: C,
    last_root: Option<C::Root>,
    rendered: bool,
}

/// What a runtime's contracts see of a mounted component.
#[derive(Clone, Copy, PartialEq, Eq, Structural, Debug)]
pub struct CellView {
    pub element: Element,
    pub node_ref: NodeRef,
    pub has_last_root: bool,
    pub rendered: bool,
}

/// A scheduled update of one component.
pub struct UpdateComponent<C: Component> {
    pub cell: usize,
    pub update: ComponentUpdate<C>,
}

/// A scheduled post-render notification of one component.
#[derive(Clone, Copy, PartialEq, Eq, Structural, Debug)]
pub struct RenderedComponent {
    pub cell: usize,
    pub first_render: bool,
}

/// A scheduled teardown of one component.
#[derive(Clone, Copy, PartialEq, Eq, Structural, Debug)]
pub struct DestroyComponent {
    pub cell: usize,
}

/// The state cells of all components of one type, the node references they
/// publish, and the queues of scheduled work. Work runs one unit at a time:
/// teardowns first, then updates, then post-render notifications, each queue
/// in the order it was filled.
pub struct Runtime<C: Component> {
    cells: Vec<Option<ComponentState<C>>>,
    refs: NodeRefs,
    updates: VecDeque<UpdateComponent<C>>,
    renders: VecDeque<RenderedComponent>,
    destroys: VecDeque<DestroyComponent>,
    history: Ghost<Seq<Hook<C::Message, C::Properties>>>,
    destroyed: Ghost<Set<usize>>,
    kind: ComponentKind,
}

/// The observable view of a state cell.
pub open spec fn cell_view<C: Component>(s: Option<ComponentState<C>>) -> Option<CellView> {
    match s {
        Some(st) => Some(st.view()),
        None => None,
    }
}

impl<C: Component> ComponentState<C> {
    /// Builds the component from `props`, handing it a clone of its scope,
    /// and records it as not rendered yet.
    fn new(
        element: Element,
        ancestor: Option<C::Root>,
        node_ref: NodeRef,
        scope: Scope<C>,
        props: C::Properties,
    ) -> (r: ComponentState<C>)
        ensures
            r.view() == (CellView {
                element,
                node_ref,
                has_last_root: ancestor.is_some(),
                rendered: false,
            }),
            r.scope == scope,
            r.last_root == ancestor,
            C::created(props, scope, r.component),
    {
        let component = C::create(props, scope.clone());
        ComponentState { element, node_ref, scope, component, last_root: ancestor, rendered: false }
    }

    pub closed spec fn view(&self) -> CellView {
        CellView {
            element: self.element,
            node_ref: self.node_ref,
            has_last_root: self.last_root.is_some(),
            rendered: self.rendered,
        }
    }
}

impl<C: Component> Runtime<C> {
    /// The state cells; `None` for a component not mounted or destroyed.
    pub closed spec fn cells(&self) -> Seq<Option<CellView>> {
        self.cells@.map_values(|s: Option<ComponentState<C>>| cell_view(s))
    }

    /// The table of node references.
    pub closed spec fn refs(&self) -> Seq<NodeRefSlot> {
        self.refs@
    }

    /// Every hook called so far, in order.
    pub closed spec fn history(&self) -> Seq<Hook<C::Message, C::Properties>> {
        self.history@
    }

    /// Updates waiting to run, first to run first.
    pub closed spec fn update_queue(&self) -> Seq<UpdateComponent<C>> {
        self.updates@
    }

    /// Post-render notifications waiting to run.
    pub closed spec fn rendered_queue(&self) -> Seq<RenderedComponent> {
        self.renders@
    }

    /// Teardowns waiting to run.
    pub closed spec fn destroy_queue(&self) -> Seq<DestroyComponent> {
        self.destroys@
    }

    /// The component instance mounted in `cell`, if any.
    pub closed spec fn instance(&self, cell: usize) -> Option<C> {
        if cell < self.cells@.len() {
            match self.cells@[cell as int] {
                Some(st) => Some(st.component),
                None => None,
            }
        } else {
            None
        }
    }

    /// The last tree rendered by the component mounted in `cell`, if any.
    pub closed spec fn last_root(&self, cell: usize) -> Option<C::Root> {
        if cell < self.cells@.len() {
            match self.cells@[cell as int] {
                Some(st) => st.last_root,
                None => None,
            }
        } else {
            None
        }
    }

    /// The scope stored with the component mounted in `cell`, if any.
    pub closed spec fn scope_of(&self, cell: usize) -> Option<Scope<C>> {
        if cell < self.cells@.len() {
            match self.cells@[cell as int] {
                Some(st) => Some(st.scope),
                None => None,
            }
        } else {
            None
        }
    }

    /// The cells whose teardown has been scheduled; no work may be scheduled
    /// for them any more.
    pub closed spec fn destroyed(&self) -> Set<usize> {
        self.destroyed@
    }

    /// The tag of the component type this runtime holds.
    pub closed spec fn kind(&self) -> ComponentKind {
        self.kind
    }

    /// The cell `cell` holds a mounted component.
    pub open spec fn is_live(&self, cell: usize) -> bool {
        cell < self.cells().len() && self.cells()[cell as int].is_some()
    }

    /// An empty runtime.
    pub fn new(kind: ComponentKind) -> (r: Runtime<C>)
        ensures
            r.kind() == kind,
            r.destroyed() == Set::<usize>::empty(),
            refs_valid(r.model()),
            r.cells() == Seq::<Option<CellView>>::empty(),
            r.refs() == Seq::<NodeRefSlot>::empty(),
            r.history() == Seq::<Hook<C::Message, C::Properties>>::empty(),
            r.update_queue() == Seq::<UpdateComponent<C>>::empty(),
            r.rendered_queue() == Seq::<RenderedComponent>::empty(),
            r.destroy_queue() == Seq::<DestroyComponent>::empty(),
    {
        let r = Runtime {
            cells: Vec::new(),
            refs: NodeRefs::new(),
            updates: VecDeque::new(),
            renders: VecDeque::new(),
            destroys: VecDeque::new(),
            history: Ghost(Seq::empty()),
            destroyed: Ghost(Set::empty()),
            kind,
        };
        assert(r.cells() =~= Seq::<Option<CellView>>::empty());
        r
    }

    /// Adds a fresh node reference.
    pub fn create_node_ref(&mut self) -> (r: NodeRef)
        ensures
            r.index == old(self).refs().len(),
            final(self).refs() == old(self).refs().push(crate::node_ref::empty_slot()),
            refs_valid(old(self).model()) ==> refs_valid(final(self).model()),
            final(self).kind() == old(self).kind(),
            final(self).cells() == old(self).cells(),
            final(self).history() == old(self).history(),
            final(self).update_queue() == old(self).update_queue(),
            final(self).rendered_queue() == old(self).rendered_queue(),
            final(self).destroy_queue() == old(self).destroy_queue(),
    {
        self.refs.create()
    }

    /// The node that `r` resolves to now.
    pub fn resolve_node_ref(&self, r: NodeRef) -> (n: Option<Node>)
        ensures
            n == crate::node_ref::resolve(self.refs(), r, self.refs().len() as nat),
    {
        self.refs.get(r)
    }
}


/// What the contracts of a runtime see: its state cells, its node
/// references, and the history of hook calls.
pub struct RuntimeModel<M, P> {
    pub cells: Seq<Option<CellView>>,
    pub refs: Seq<NodeRefSlot>,
    pub history: Seq<Hook<M, P>>,
}

/// The node reference of every mounted component is a slot of the table.
pub open spec fn refs_valid<M, P>(m: RuntimeModel<M, P>) -> bool {
    forall|c: int|
        0 <= c < m.cells.len() && (#[trigger] m.cells[c]) is Some ==> m.cells[c].unwrap().node_ref.index
            < m.refs.len()
}

/// The history entries of applying `msgs`, in order, with the results `rs`.
pub open spec fn update_hooks<M, P>(cell: usize, msgs: Seq<M>, rs: Seq<bool>) -> Seq<Hook<M, P>> {
    Seq::new(msgs.len(), |i: int| Hook::Update { cell, message: msgs[i], should_render: rs[i] })
}

/// Some result in `rs` asks for a render.
pub open spec fn any_true(rs: Seq<bool>) -> bool {
    exists|i: int| 0 <= i < rs.len() && rs[i]
}

/// `rs` holds one hook result for each message or property change of `update`.
pub open spec fn results_fit<C: Component>(update: ComponentUpdate<C>, rs: Seq<bool>) -> bool {
    rs.len() == hook_calls(update)
}

/// How many times `update` calls the component's update or change hook.
pub open spec fn hook_calls<C: Component>(update: ComponentUpdate<C>) -> nat {
    match update {
        ComponentUpdate::Force => 0,
        ComponentUpdate::Message(_) => 1,
        ComponentUpdate::MessageBatch(ms) => ms@.len(),
        ComponentUpdate::Properties(_, _) => 1,
    }
}

/// Whether `update`, with hook results `rs`, asks for a render.
pub open spec fn should_render<C: Component>(update: ComponentUpdate<C>, rs: Seq<bool>) -> bool {
    match update {
        ComponentUpdate::Force => true,
        ComponentUpdate::MessageBatch(_) => any_true(rs),
        _ => rs[0],
    }
}

/// The node references after a render of the component whose reference is
/// `own`: set to the node the engine returned, or else linked to the nested
/// component at the root of the new tree.
pub open spec fn render_refs(refs: Seq<NodeRefSlot>, own: NodeRef, node: Option<Node>, child: Option<NodeRef>) -> Seq<NodeRefSlot> {
    match node {
        Some(n) => slots_set(refs, own, Some(n)),
        None => match child {
            Some(c) => slots_link(refs, own, c),
            None => refs,
        },
    }
}

/// The model after an update unit runs for `cell`, where the component's
/// hooks returned `rs` and the engine returned `node` for a tree whose root
/// is the nested component with reference `child`, if any. A cell with no
/// mounted component is left as it is.
pub open spec fn update_outcome<C: Component>(
    m: RuntimeModel<C::Message, C::Properties>,
    cell: usize,
    update: ComponentUpdate<C>,
    rs: Seq<bool>,
    node: Option<Node>,
    child: Option<NodeRef>,
) -> RuntimeModel<C::Message, C::Properties> {
    if cell < m.cells.len() && m.cells[cell as int].is_some() {
        let st = m.cells[cell as int].unwrap();
        let refs1 = match update {
            ComponentUpdate::Properties(_, r) => slots_link(m.refs, r, st.node_ref),
            _ => m.refs,
        };
        let history1 = match update {
            ComponentUpdate::Force => m.history,
            ComponentUpdate::Message(msg) => m.history.push(
                Hook::Update { cell, message: msg, should_render: rs[0] },
            ),
            ComponentUpdate::MessageBatch(ms) => m.history + update_hooks(cell, ms@, rs),
            ComponentUpdate::Properties(p, _) => m.history.push(
                Hook::Change { cell, props: p, should_render: rs[0] },
            ),
        };
        if should_render(update, rs) {
            RuntimeModel {
                cells: m.cells.update(
                    cell as int,
                    Some(CellView { has_last_root: true, rendered: false, ..st }),
                ),
                refs: render_refs(refs1, st.node_ref, node, child),
                history: history1.push(Hook::View { cell }),
            }
        } else {
            RuntimeModel { cells: m.cells, refs: refs1, history: history1 }
        }
    } else {
        m
    }
}

/// The model after a post-render unit runs for `cell`: the hook is called
/// only where the component is mounted and not yet notified of its last
/// render.
pub open spec fn rendered_outcome<M, P>(m: RuntimeModel<M, P>, cell: usize, first_render: bool) -> RuntimeModel<M, P> {
    if cell < m.cells.len() && m.cells[cell as int].is_some() && !m.cells[cell as int].unwrap().rendered {
        RuntimeModel {
            cells: m.cells.update(
                cell as int,
                Some(CellView { rendered: true, ..m.cells[cell as int].unwrap() }),
            ),
            refs: m.refs,
            history: m.history.push(Hook::Rendered { cell, first_render }),
        }
    } else {
        m
    }
}

/// The model after a teardown unit runs for `cell`: the state record is
/// removed and the teardown hook called, once.
pub open spec fn destroy_outcome<M, P>(m: RuntimeModel<M, P>, cell: usize) -> RuntimeModel<M, P> {
    if cell < m.cells.len() && m.cells[cell as int].is_some() {
        RuntimeModel {
            cells: m.cells.update(cell as int, None),
            refs: m.refs,
            history: m.history.push(Hook::Destroy { cell }),
        }
    } else {
        m
    }
}

impl<C: Component> Runtime<C> {
    /// The runtime's model.
    pub open spec fn model(&self) -> RuntimeModel<C::Message, C::Properties> {
        RuntimeModel { cells: self.cells(), refs: self.refs(), history: self.history() }
    }

    /// Takes the state record out of `cell`, leaving it empty.
    fn take_state(&mut self, cell: usize) -> (r: Option<ComponentState<C>>)
        requires
            cell < old(self).cells@.len(),
        ensures
            r == old(self).cells@[cell as int],
            final(self).cells@ == old(self).cells@.update(cell as int, None),
            final(self).refs == old(self).refs,
            final(self).updates == old(self).updates,
            final(self).renders == old(self).renders,
            final(self).destroys == old(self).destroys,
            final(self).history == old(self).history,
            final(self).destroyed == old(self).destroyed,
            final(self).kind == old(self).kind,
    {
        let mut r: Option<ComponentState<C>> = None;
        std::mem::swap(&mut r, &mut self.cells[cell]);
        r
    }
}

/// The untyped handle of a scope.
pub open spec fn any_of<C>(s: Scope<C>) -> AnyScope {
    AnyScope { type_id: s.type_id, parent: s.parent, cell: s.cell }
}

/// `is` is a chain of instances, each obtained from the one before by the
/// update hook applied to the next of `ms`, which returned the next of `rs`.
pub open spec fn update_chain<C: Component>(is: Seq<C>, ms: Seq<C::Message>, rs: Seq<bool>) -> bool {
    &&& is.len() == ms.len() + 1
    &&& rs.len() == ms.len()
    &&& forall|k: int| 0 <= k < ms.len() ==> #[trigger] is[k].updated(ms[k], is[k + 1], rs[k])
}

/// `next` is instance `c` once the hooks that `update` calls returned `rs`.
pub open spec fn hooks_applied<C: Component>(c: C, update: ComponentUpdate<C>, rs: Seq<bool>, next: C) -> bool {
    match update {
        ComponentUpdate::Force => next == c,
        ComponentUpdate::Message(m) => c.updated(m, next, rs[0]),
        ComponentUpdate::MessageBatch(ms) => exists|is: Seq<C>|
            #[trigger] update_chain(is, ms@, rs) && is[0] == c && is.last() == next,
        ComponentUpdate::Properties(p, _) => c.changed(p, next, rs[0]),
    }
}

/// Every cell but `cell` keeps its instance, last tree and scope.
pub open spec fn others_kept<C: Component>(before: Runtime<C>, after: Runtime<C>, cell: usize) -> bool {
    forall|j: usize|
        j != cell ==> {
            &&& #[trigger] after.instance(j) == before.instance(j)
            &&& after.last_root(j) == before.last_root(j)
            &&& after.scope_of(j) == before.scope_of(j)
        }
}

/// Every cell keeps its instance, last tree and scope.
pub open spec fn all_kept<C: Component>(before: Runtime<C>, after: Runtime<C>) -> bool {
    forall|j: usize|
        {
            &&& #[trigger] after.instance(j) == before.instance(j)
            &&& after.last_root(j) == before.last_root(j)
            &&& after.scope_of(j) == before.scope_of(j)
        }
}

/// An update unit for `cell` took runtime `before` to `after`: the hooks
/// returned `rs` and left instance `next`; where a render was asked for,
/// `view` built `root`, which `apply` turned into `tree` and resolved to
/// `node`, and `child` is the nested component at the root of `tree`.
pub open spec fn update_ran<C: Component>(
    before: Runtime<C>,
    after: Runtime<C>,
    cell: usize,
    update: ComponentUpdate<C>,
    rs: Seq<bool>,
    node: Option<Node>,
    child: Option<NodeRef>,
    next: C,
    root: C::Root,
    tree: C::Root,
) -> bool {
    &&& results_fit(update, rs)
    &&& update_outcome(before.model(), cell, update, rs, node, child) == after.model()
    &&& others_kept(before, after, cell)
    &&& after.scope_of(cell) == before.scope_of(cell)
    &&& before.is_live(cell) ==> {
        &&& hooks_applied(before.instance(cell).unwrap(), update, rs, next)
        &&& after.instance(cell) == Some(next)
        &&& if should_render(update, rs) {
            &&& next.viewed(root)
            &&& root.applied(
                any_of(before.scope_of(cell).unwrap()),
                before.cells()[cell as int].unwrap().element,
                None,
                before.last_root(cell),
                tree,
                node,
            )
            &&& node.is_none() ==> child == tree.root_component_ref()
            &&& after.last_root(cell) == Some(tree)
        } else {
            after.last_root(cell) == before.last_root(cell)
        }
    }
    &&& !before.is_live(cell) ==> after.instance(cell) == before.instance(cell)
        && after.last_root(cell) == before.last_root(cell)
}

/// A post-render unit for `cell` took `before` to `after`; where the hook
/// fired, it left instance `next`.
pub open spec fn rendered_ran<C: Component>(
    before: Runtime<C>,
    after: Runtime<C>,
    cell: usize,
    first_render: bool,
    next: C,
) -> bool {
    &&& after.model() == rendered_outcome(before.model(), cell, first_render)
    &&& others_kept(before, after, cell)
    &&& after.scope_of(cell) == before.scope_of(cell)
    &&& after.last_root(cell) == before.last_root(cell)
    &&& if before.is_live(cell) && !before.cells()[cell as int].unwrap().rendered {
        &&& before.instance(cell).unwrap().notified(first_render, next)
        &&& after.instance(cell) == Some(next)
    } else {
        after.instance(cell) == before.instance(cell)
    }
}

/// A teardown unit for `cell` took `before` to `after`; where a component
/// was mounted, its teardown hook left `next`, and its last tree, if any,
/// was detached from the anchor, leaving `tree`.
pub open spec fn destroy_ran<C: Component>(
    before: Runtime<C>,
    after: Runtime<C>,
    cell: usize,
    next: C,
    tree: C::Root,
) -> bool {
    &&& after.model() == destroy_outcome(before.model(), cell)
    &&& others_kept(before, after, cell)
    &&& after.instance(cell).is_none()
    &&& after.last_root(cell).is_none()
    &&& before.is_live(cell) ==> {
        &&& before.instance(cell).unwrap().torn_down(next)
        &&& before.last_root(cell) is Some ==> before.last_root(cell).unwrap().detached(
            before.cells()[cell as int].unwrap().element,
            tree,
        )
    }
}

impl<C: Component> Scope<C> {
    /// The untyped handle of this scope.
    pub fn to_any(&self) -> (r: AnyScope)
        ensures
            r == any_of(*self),
    {
        let parent = match &self.parent {
            Some(p) => Some(Box::new((**p).clone())),
            None => None,
        };
        AnyScope { type_id: self.type_id, parent, cell: self.cell }
    }
}

impl<C: Component> UpdateComponent<C> {
    /// Runs the update: applies the message, messages or properties to the
    /// mounted component and, where it asks for it, renders it again.
    /// Every message of a batch is applied, in order, whatever the earlier
    /// ones returned. Nothing happens where the cell holds no component.
    pub fn run(self, rt: &mut Runtime<C>)
        ensures
            refs_valid(old(rt).model()) ==> refs_valid(final(rt).model()),
            final(rt).update_queue() == old(rt).update_queue(),
            final(rt).rendered_queue() == old(rt).rendered_queue(),
            final(rt).destroy_queue() == old(rt).destroy_queue(),
            final(rt).destroyed() == old(rt).destroyed(),
            final(rt).kind() == old(rt).kind(),
            exists|
                rs: Seq<bool>,
                node: Option<Node>,
                child: Option<NodeRef>,
                next: C,
                root: C::Root,
                tree: C::Root,
            |
                #[trigger] update_ran(
                    *old(rt),
                    *final(rt),
                    self.cell,
                    self.update,
                    rs,
                    node,
                    child,
                    next,
                    root,
                    tree,
                ),
    {
        let ghost rt0 = *rt;
        let ghost m0 = rt.model();
        let ghost upd0 = self.update;
        let UpdateComponent { cell, update } = self;
        if cell >= rt.cells.len() || rt.cells[cell].is_none() {
            let ghost rs = Seq::new(hook_calls(upd0), |i: int| false);
            let ghost c: C = arbitrary();
            let ghost t: C::Root = arbitrary();
            assert(update_outcome(m0, cell, upd0, rs, None, None) == rt.model());
            assert(update_ran(rt0, *rt, cell, upd0, rs, None, None, c, t, t));
            return;
        }
        let mut st = rt.take_state(cell).unwrap();
        let ghost v0 = st.view();
        let ghost c0 = st.component;
        let ghost cells1 = rt.cells@;
        let ghost mut rs: Seq<bool> = Seq::empty();
        let should: bool = match update {
            ComponentUpdate::Force => true,
            ComponentUpdate::Message(msg) => {
                let ghost g = msg;
                let r = st.component.update(msg);
                proof {
                    rs = seq![r];
                }
                rt.history = Ghost(rt.history@.push(Hook::Update { cell, message: g, should_render: r }));
                r
            },
            ComponentUpdate::MessageBatch(msgs) => {
                let ghost ms = msgs@;
                let ghost h0 = rt.history@;
                let n = msgs.len();
                let mut msgs = msgs;
                let mut acc = false;
                let mut i: usize = 0;
                let ghost mut is: Seq<C> = seq![c0];
                while msgs.len() > 0
                    invariant
                        i + msgs@.len() == ms.len(),
                        ms.len() == n,
                        msgs@ == ms.subrange(i as int, ms.len() as int),
                        rs.len() == i,
                        acc == any_true(rs),
                        rt.history@ == h0 + update_hooks::<C::Message, C::Properties>(cell, ms.take(i as int), rs),
                        rt.cells@ == cells1,
                        rt.refs@ == m0.refs,
                        rt.updates == old(rt).updates,
                        rt.renders == old(rt).renders,
                        rt.destroys == old(rt).destroys,
                        rt.destroyed == old(rt).destroyed,
                        rt.kind == old(rt).kind,
                        st.view() == v0,
                        st.scope == rt0.scope_of(cell).unwrap(),
                        st.last_root == rt0.last_root(cell),
                        update_chain(is, ms.take(i as int), rs),
                        is[0] == c0,
                        is.last() == st.component,
                    decreases msgs@.len(),
                {
                    let msg = msgs.remove(0);
                    let ghost g = msg;
                    let ghost before = st.component;
                    let r = st.component.update(msg);
                    let ghost rs0 = rs;
                    let ghost is0 = is;
                    proof {
                        rs = rs.push(r);
                        is = is.push(st.component);
                    }
                    assert(any_true(rs) == (any_true(rs0) || r)) by {
                        if r {
                            assert(rs[i as int]);
                        }
                        if any_true(rs0) {
                            let j = choose|j: int| 0 <= j < rs0.len() && rs0[j];
                            assert(rs[j]);
                        }
                    }
                    acc = r || acc;
                    assert(ms.take(i as int + 1) =~= ms.take(i as int).push(g));
                    assert(update_hooks::<C::Message, C::Properties>(cell, ms.take(i as int + 1), rs)
                        =~= update_hooks::<C::Message, C::Properties>(cell, ms.take(i as int), rs0).push(
                        Hook::Update { cell, message: g, should_render: r }));
                    assert forall|k: int| 0 <= k < ms.take(i as int + 1).len() implies
                        #[trigger] is[k].updated(ms.take(i as int + 1)[k], is[k + 1], rs[k]) by {
                        if k < i {
                            assert(is0[k].updated(ms.take(i as int)[k], is0[k + 1], rs0[k]));
                        }
                    }
                    rt.history = Ghost(rt.history@.push(Hook::Update { cell, message: g, should_render: r }));
                    i = i + 1;
                }
                assert(ms.take(i as int) =~= ms);
                assert(update_chain(is, ms, rs));
                acc
            },
            ComponentUpdate::Properties(props, node_ref) => {
                let ghost g = props;
                rt.refs.link(node_ref, st.node_ref);
                let r = st.component.change(props);
                proof {
                    rs = seq![r];
                }
                rt.history = Ghost(rt.history@.push(Hook::Change { cell, props: g, should_render: r }));
                r
            },
        };
        assert(should == should_render(upd0, rs));
        assert(hooks_applied(c0, upd0, rs, st.component));
        let ghost next = st.component;
        let ghost mut node: Option<Node> = None;
        let ghost mut child: Option<NodeRef> = None;
        let ghost mut root0: C::Root = arbitrary();
        let ghost mut tree: C::Root = arbitrary();
        if should {
            st.rendered = false;
            let mut root = st.component.view();
            proof {
                root0 = root;
            }
            rt.history = Ghost(rt.history@.push(Hook::View { cell }));
            let last_root = st.last_root.take();
            let parent_scope = st.scope.to_any();
            let applied = root.apply(&parent_scope, &st.element, None, last_root);
            proof {
                node = applied;
                tree = root;
            }
            match applied {
                Some(n) => {
                    rt.refs.set(st.node_ref, Some(n));
                },
                None => {
                    let c = root.component_node_ref();
                    proof {
                        child = c;
                    }
                    match c {
                        Some(c) => {
                            rt.refs.link(st.node_ref, c);
                        },
                        None => {},
                    }
                },
            }
            st.last_root = Some(root);
        }
        let ghost v1 = st.view();
        rt.cells.set(cell, Some(st));
        assert(rt.cells() =~= m0.cells.update(cell as int, Some(v1)));
        assert(rt.cells() =~= update_outcome(m0, cell, upd0, rs, node, child).cells);
        assert(update_outcome(m0, cell, upd0, rs, node, child) == rt.model());
        assert(update_ran(rt0, *rt, cell, upd0, rs, node, child, next, root0, tree));
    }
}

impl RenderedComponent {
    /// Runs the post-render notification: the component's `rendered` hook is
    /// called where the component is mounted and has not been notified of its
    /// last render yet. Otherwise nothing happens.
    pub fn run<C: Component>(self, rt: &mut Runtime<C>)
        ensures
            refs_valid(old(rt).model()) ==> refs_valid(final(rt).model()),
            exists|next: C| #[trigger] rendered_ran(*old(rt), *final(rt), self.cell, self.first_render, next),
            final(rt).update_queue() == old(rt).update_queue(),
            final(rt).rendered_queue() == old(rt).rendered_queue(),
            final(rt).destroy_queue() == old(rt).destroy_queue(),
            final(rt).destroyed() == old(rt).destroyed(),
            final(rt).kind() == old(rt).kind(),
    {
        let ghost rt0 = *rt;
        let ghost m0 = rt.model();
        let ghost any: C = arbitrary();
        let cell = self.cell;
        if cell >= rt.cells.len() {
            assert(rendered_ran(rt0, *rt, cell, self.first_render, any));
            return;
        }
        match rt.cells[cell].as_ref() {
            None => {
                assert(rendered_ran(rt0, *rt, cell, self.first_render, any));
                return;
            },
            Some(st) => {
                if st.rendered {
                    assert(rendered_ran(rt0, *rt, cell, self.first_render, any));
                    return;
                }
            },
        }
        let mut st = rt.take_state(cell).unwrap();
        st.rendered = true;
        st.component.rendered(self.first_render);
        rt.history = Ghost(rt.history@.push(Hook::Rendered { cell, first_render: self.first_render }));
        let ghost v1 = st.view();
        let ghost next = st.component;
        rt.cells.set(cell, Some(st));
        assert(rt.cells() =~= m0.cells.update(cell as int, Some(v1)));
        assert(rendered_ran(rt0, *rt, cell, self.first_render, next));
    }
}

impl DestroyComponent {
    /// Runs the teardown: removes the state record for good, calls the
    /// component's `destroy` hook and detaches the last rendered tree from
    /// the anchor. Nothing happens where the cell is already empty.
    pub fn run<C: Component>(self, rt: &mut Runtime<C>)
        ensures
            refs_valid(old(rt).model()) ==> refs_valid(final(rt).model()),
            exists|next: C, tree: C::Root| #[trigger] destroy_ran(*old(rt), *final(rt), self.cell, next, tree),
            final(rt).update_queue() == old(rt).update_queue(),
            final(rt).rendered_queue() == old(rt).rendered_queue(),
            final(rt).destroy_queue() == old(rt).destroy_queue(),
            final(rt).destroyed() == old(rt).destroyed(),
            final(rt).kind() == old(rt).kind(),
    {
        let ghost rt0 = *rt;
        let ghost m0 = rt.model();
        let ghost any: C = arbitrary();
        let ghost any_tree: C::Root = arbitrary();
        let cell = self.cell;
        if cell >= rt.cells.len() || rt.cells[cell].is_none() {
            assert(destroy_ran(rt0, *rt, cell, any, any_tree));
            return;
        }
        let mut st = rt.take_state(cell).unwrap();
        st.component.destroy();
        let ghost next = st.component;
        let ghost mut tree = any_tree;
        rt.history = Ghost(rt.history@.push(Hook::Destroy { cell }));
        match st.last_root {
            Some(mut root) => {
                root.detach(&st.element);
                proof {
                    tree = root;
                }
            },
            None => {},
        }
        assert(rt.cells() =~= m0.cells.update(cell as int, None));
        assert(destroy_ran(rt0, *rt, cell, next, tree));
    }
}

impl<C: Component> Runtime<C> {
    /// Runs the next scheduled unit, if any: a teardown first, else an
    /// update, else a post-render notification, each the oldest of its
    /// queue. Returns whether a unit ran.
    pub fn run_next(&mut self) -> (ran: bool)
        ensures
            refs_valid(old(self).model()) ==> refs_valid(final(self).model()),
            final(self).kind() == old(self).kind(),
            final(self).destroyed() == old(self).destroyed(),
            ran == (old(self).destroy_queue().len() > 0 || old(self).update_queue().len() > 0
                || old(self).rendered_queue().len() > 0),
            !ran ==> final(self).model() == old(self).model() && all_kept(*old(self), *final(self)),
            old(self).destroy_queue().len() > 0 ==> {
                &&& final(self).destroy_queue() == old(self).destroy_queue().drop_first()
                &&& final(self).update_queue() == old(self).update_queue()
                &&& final(self).rendered_queue() == old(self).rendered_queue()
                &&& exists|next: C, tree: C::Root|
                    #[trigger] destroy_ran(
                        *old(self),
                        *final(self),
                        old(self).destroy_queue()[0].cell,
                        next,
                        tree,
                    )
            },
            old(self).destroy_queue().len() == 0 && old(self).update_queue().len() > 0 ==> {
                let u = old(self).update_queue()[0];
                &&& final(self).destroy_queue() == old(self).destroy_queue()
                &&& final(self).update_queue() == old(self).update_queue().drop_first()
                &&& final(self).rendered_queue() == old(self).rendered_queue()
                &&& exists|
                    rs: Seq<bool>,
                    node: Option<Node>,
                    child: Option<NodeRef>,
                    next: C,
                    root: C::Root,
                    tree: C::Root,
                |
                    #[trigger] update_ran(
                        *old(self),
                        *final(self),
                        u.cell,
                        u.update,
                        rs,
                        node,
                        child,
                        next,
                        root,
                        tree,
                    )
            },
            old(self).destroy_queue().len() == 0 && old(self).update_queue().len() == 0
                && old(self).rendered_queue().len() > 0 ==> {
                let u = old(self).rendered_queue()[0];
                &&& final(self).destroy_queue() == old(self).destroy_queue()
                &&& final(self).update_queue() == old(self).update_queue()
                &&& final(self).rendered_queue() == old(self).rendered_queue().drop_first()
                &&& exists|next: C|
                    #[trigger] rendered_ran(*old(self), *final(self), u.cell, u.first_render, next)
            },
    {
        let ghost s0 = *self;
        match self.destroys.pop_front() {
            Some(unit) => {
                let ghost s1 = *self;
                unit.run(self);
                proof {
                    let (next, tree) = choose|next: C, tree: C::Root|
                        #[trigger] destroy_ran(s1, *self, unit.cell, next, tree);
                    assert(destroy_ran(s0, *self, unit.cell, next, tree));
                }
                return true;
            },
            None => {},
        }
        match self.updates.pop_front() {
            Some(unit) => {
                let ghost s1 = *self;
                let ghost u = unit;
                assert(unit == old(self).update_queue()[0]);
                unit.run(self);
                proof {
                    let (rs, node, child, next, root, tree) = choose|
                        rs: Seq<bool>,
                        node: Option<Node>,
                        child: Option<NodeRef>,
                        next: C,
                        root: C::Root,
                        tree: C::Root,
                    |
                        #[trigger] update_ran(s1, *self, u.cell, u.update, rs, node, child, next, root, tree);
                    assert(update_ran(s0, *self, u.cell, u.update, rs, node, child, next, root, tree));
                }
                return true;
            },
            None => {},
        }
        match self.renders.pop_front() {
            Some(unit) => {
                let ghost s1 = *self;
                unit.run(self);
                proof {
                    let next = choose|next: C|
                        #[trigger] rendered_ran(s1, *self, unit.cell, unit.first_render, next);
                    assert(rendered_ran(s0, *self, unit.cell, unit.first_render, next));
                }
                true
            },
            None => false,
        }
    }
}

impl<C: Component> Clone for Scope<C> {
    fn clone(&self) -> (r: Self)
        ensures
            r == *self,
    {
        let parent = match &self.parent {
            Some(p) => Some(Box::new((**p).clone())),
            None => None,
        };
        Scope { type_id: self.type_id, parent, cell: self.cell, marker: PhantomData }
    }
}

impl<C: Component> Scope<C> {
    /// Returns the parent scope.
    pub fn get_parent(&self) -> (r: Option<&AnyScope>)
        ensures
            r == match self.parent {
                Some(p) => Some(&*p),
                None => None::<&AnyScope>,
            },
    {
        match &self.parent {
            Some(p) => Some(&**p),
            None => None,
        }
    }

    /// Returns the linked component, if it is mounted.
    pub fn get_component<'a>(&self, rt: &'a Runtime<C>) -> (r: Option<&'a C>)
        ensures
            r.is_some() == rt.is_live(self.cell),
            r.is_some() ==> Some(*r.unwrap()) == rt.instance(self.cell),
    {
        if self.cell < rt.cells.len() {
            match rt.cells[self.cell].as_ref() {
                Some(st) => Some(&st.component),
                None => None,
            }
        } else {
            None
        }
    }

    /// A new scope of `rt`, with an empty state cell of its own.
    pub fn new(rt: &mut Runtime<C>, parent: Option<AnyScope>) -> (r: Scope<C>)
        ensures
            r.cell == old(rt).cells().len(),
            r.type_id == old(rt).kind(),
            r.parent == match parent {
                Some(p) => Some(Box::new(p)),
                None => None::<Box<AnyScope>>,
            },
            final(rt).cells() == old(rt).cells().push(None),
            refs_valid(old(rt).model()) ==> refs_valid(final(rt).model()),
            all_kept(*old(rt), *final(rt)),
            final(rt).destroyed() == old(rt).destroyed(),
            final(rt).refs() == old(rt).refs(),
            final(rt).history() == old(rt).history(),
            final(rt).update_queue() == old(rt).update_queue(),
            final(rt).rendered_queue() == old(rt).rendered_queue(),
            final(rt).destroy_queue() == old(rt).destroy_queue(),
            final(rt).kind() == old(rt).kind(),
    {
        let parent = match parent {
            Some(p) => Some(Box::new(p)),
            None => None,
        };
        let cell = rt.cells.len();
        rt.cells.push(None);
        assert(rt.cells() =~= old(rt).cells().push(None));
        Scope { type_id: rt.kind, parent, cell, marker: PhantomData }
    }

    /// Mounts a component built from `props` under `element`, and schedules
    /// its first render: a forced update and then a first post-render
    /// notification, behind all work already queued.
    pub fn mount_in_place(
        self,
        rt: &mut Runtime<C>,
        element: Element,
        ancestor: Option<C::Root>,
        node_ref: NodeRef,
        props: C::Properties,
    ) -> (r: Scope<C>)
        requires
            self.cell < old(rt).cells().len(),
            !old(rt).destroyed().contains(self.cell),
            node_ref.index < old(rt).refs().len(),
        ensures
            final(rt).destroyed() == old(rt).destroyed(),
            refs_valid(old(rt).model()) ==> refs_valid(final(rt).model()),
            r == self,
            final(rt).cells() == old(rt).cells().update(
                self.cell as int,
                Some(
                    CellView {
                        element,
                        node_ref,
                        has_last_root: ancestor.is_some(),
                        rendered: false,
                    },
                ),
            ),
            final(rt).refs() == old(rt).refs(),
            final(rt).history() == old(rt).history().push(Hook::Create { cell: self.cell }),
            final(rt).last_root(self.cell) == ancestor,
            final(rt).scope_of(self.cell) == Some(self),
            final(rt).instance(self.cell) is Some,
            C::created(props, self, final(rt).instance(self.cell).unwrap()),
            others_kept(*old(rt), *final(rt), self.cell),
            final(rt).update_queue() == old(rt).update_queue().push(
                UpdateComponent { cell: self.cell, update: ComponentUpdate::Force },
            ),
            final(rt).rendered_queue() == old(rt).rendered_queue().push(
                RenderedComponent { cell: self.cell, first_render: true },
            ),
            final(rt).destroy_queue() == old(rt).destroy_queue(),
            final(rt).kind() == old(rt).kind(),
    {
        let st = ComponentState::new(element, ancestor, node_ref, self.clone(), props);
        let ghost v = st.view();
        rt.cells.set(self.cell, Some(st));
        rt.history = Ghost(rt.history@.push(Hook::Create { cell: self.cell }));
        assert(rt.cells() =~= old(rt).cells().update(self.cell as int, Some(v)));
        self.update(rt, ComponentUpdate::Force, true);
        self
    }

    /// Schedules `update` for the component, and then a post-render
    /// notification with `first_render` set to `first_update`.
    pub fn update(&self, rt: &mut Runtime<C>, update: ComponentUpdate<C>, first_update: bool)
        requires
            !old(rt).destroyed().contains(self.cell),
            update matches ComponentUpdate::Properties(_, r) ==> r.index < old(rt).refs().len(),
        ensures
            all_kept(*old(rt), *final(rt)),
            final(rt).destroyed() == old(rt).destroyed(),
            final(rt).model() == old(rt).model(),
            final(rt).update_queue() == old(rt).update_queue().push(
                UpdateComponent { cell: self.cell, update },
            ),
            final(rt).rendered_queue() == old(rt).rendered_queue().push(
                RenderedComponent { cell: self.cell, first_render: first_update },
            ),
            final(rt).destroy_queue() == old(rt).destroy_queue(),
            final(rt).kind() == old(rt).kind(),
    {
        rt.updates.push_back(UpdateComponent { cell: self.cell, update });
        self.rendered(rt, first_update);
    }

    /// Schedules a post-render notification for the component.
    pub fn rendered(&self, rt: &mut Runtime<C>, first_render: bool)
        requires
            !old(rt).destroyed().contains(self.cell),
        ensures
            all_kept(*old(rt), *final(rt)),
            final(rt).destroyed() == old(rt).destroyed(),
            final(rt).model() == old(rt).model(),
            final(rt).update_queue() == old(rt).update_queue(),
            final(rt).rendered_queue() == old(rt).rendered_queue().push(
                RenderedComponent { cell: self.cell, first_render },
            ),
            final(rt).destroy_queue() == old(rt).destroy_queue(),
            final(rt).kind() == old(rt).kind(),
    {
        rt.renders.push_back(RenderedComponent { cell: self.cell, first_render });
    }

    /// Schedules the teardown of the component. Teardowns run before any
    /// other queued work, and every unit for this component that runs after
    /// its teardown does nothing.
    pub fn destroy(&mut self, rt: &mut Runtime<C>)
        requires
            !old(rt).destroyed().contains(old(self).cell),
        ensures
            all_kept(*old(rt), *final(rt)),
            *final(self) == *old(self),
            final(rt).model() == old(rt).model(),
            final(rt).update_queue() == old(rt).update_queue(),
            final(rt).rendered_queue() == old(rt).rendered_queue(),
            final(rt).destroy_queue() == old(rt).destroy_queue().push(
                DestroyComponent { cell: old(self).cell },
            ),
            final(rt).destroyed() == old(rt).destroyed().insert(old(self).cell),
            final(rt).kind() == old(rt).kind(),
    {
        rt.destroys.push_back(DestroyComponent { cell: self.cell });
        rt.destroyed = Ghost(rt.destroyed@.insert(self.cell));
    }

    /// Sends a message to the component.
    pub fn send_message(&self, rt: &mut Runtime<C>, msg: C::Message)
        requires
            !old(rt).destroyed().contains(self.cell),
        ensures
            all_kept(*old(rt), *final(rt)),
            final(rt).destroyed() == old(rt).destroyed(),
            final(rt).model() == old(rt).model(),
            final(rt).update_queue() == old(rt).update_queue().push(
                UpdateComponent { cell: self.cell, update: ComponentUpdate::Message(msg) },
            ),
            final(rt).rendered_queue() == old(rt).rendered_queue().push(
                RenderedComponent { cell: self.cell, first_render: false },
            ),
            final(rt).destroy_queue() == old(rt).destroy_queue(),
            final(rt).kind() == old(rt).kind(),
    {
        self.update(rt, ComponentUpdate::Message(msg), false);
    }

    /// Sends a batch of messages to the component, to be applied in order by
    /// one update.
    pub fn send_message_batch(&self, rt: &mut Runtime<C>, messages: Vec<C::Message>)
        requires
            !old(rt).destroyed().contains(self.cell),
        ensures
            all_kept(*old(rt), *final(rt)),
            final(rt).destroyed() == old(rt).destroyed(),
            final(rt).model() == old(rt).model(),
            final(rt).update_queue() == old(rt).update_queue().push(
                UpdateComponent { cell: self.cell, update: ComponentUpdate::MessageBatch(messages) },
            ),
            final(rt).rendered_queue() == old(rt).rendered_queue().push(
                RenderedComponent { cell: self.cell, first_render: false },
            ),
            final(rt).destroy_queue() == old(rt).destroy_queue(),
            final(rt).kind() == old(rt).kind(),
    {
        self.update(rt, ComponentUpdate::MessageBatch(messages), false);
    }
}

impl AnyScope {
    /// Returns the parent scope.
    pub fn get_parent(&self) -> (r: Option<&AnyScope>)
        ensures
            r == match self.parent {
                Some(p) => Some(&*p),
                None => None::<&AnyScope>,
            },
    {
        match &self.parent {
            Some(p) => Some(&**p),
            None => None,
        }
    }

    /// Returns the kind of the linked component.
    pub fn get_type_id(&self) -> (r: &ComponentKind)
        ensures
            *r == self.type_id,
    {
        &self.type_id
    }

    /// The typed scope behind this handle, where the linked component is of
    /// kind `kind`; `None` for any other kind.
    pub fn downcast<C: Component>(self, kind: ComponentKind) -> (r: Option<Scope<C>>)
        ensures
            r.is_some() == (self.type_id == kind),
            r.is_some() ==> r.unwrap().type_id == self.type_id && r.unwrap().parent == self.parent
                && r.unwrap().cell == self.cell,
    {
        if self.type_id == kind {
            Some(Scope { type_id: self.type_id, parent: self.parent, cell: self.cell, marker: PhantomData })
        } else {
            None
        }
    }
}

impl<C: Component> From<Scope<C>> for AnyScope {
    fn from(scope: Scope<C>) -> (r: AnyScope) {
        AnyScope { type_id: scope.type_id, parent: scope.parent, cell: scope.cell }
    }
}

impl<C: Component> vstd::std_specs::convert::FromSpecImpl<Scope<C>> for AnyScope {
    open spec fn obeys_from_spec() -> bool {
        true
    }

    open spec fn from_spec(scope: Scope<C>) -> AnyScope {
        AnyScope { type_id: scope.type_id, parent: scope.parent, cell: scope.cell }
    }
}

/// A callback that turns its input into one message for a component.
pub struct Callback<C, F> {
    pub scope: Scope<C>,
    pub function: F,
}

/// A callback that may be invoked once, turning its input into one message.
pub struct CallbackOnce<C, F> {
    pub scope: Scope<C>,
    pub function: F,
}

/// A callback that turns its input into a batch of messages.
pub struct BatchCallback<C, F> {
    pub scope: Scope<C>,
    pub function: F,
}

impl<C: Component> Scope<C> {
    /// A callback that sends `function(input)` to this component.
    pub fn callback<IN, F: Fn(IN) -> C::Message>(&self, function: F) -> (r: Callback<C, F>)
        ensures
            r.scope == *self,
            r.function == function,
    {
        Callback { scope: self.clone(), function }
    }

    /// A one-shot callback that sends `function(input)` to this component.
    pub fn callback_once<IN, F: FnOnce(IN) -> C::Message>(&self, function: F) -> (r: CallbackOnce<C, F>)
        ensures
            r.scope == *self,
            r.function == function,
    {
        CallbackOnce { scope: self.clone(), function }
    }

    /// A callback that sends the batch `function(input)` to this component.
    pub fn batch_callback<IN, F: Fn(IN) -> Vec<C::Message>>(&self, function: F) -> (r: BatchCallback<C, F>)
        ensures
            r.scope == *self,
            r.function == function,
    {
        BatchCallback { scope: self.clone(), function }
    }
}

impl<C: Component, F> Callback<C, F> {
    /// Invokes the callback: schedules the message computed from `input`.
    /// Nothing runs now; the component sees the message when the update runs.
    pub fn emit<IN>(&self, rt: &mut Runtime<C>, input: IN)
        where
            F: Fn(IN) -> C::Message,
        requires
            self.function.requires((input,)),
            !old(rt).destroyed().contains(self.scope.cell),
        ensures
            all_kept(*old(rt), *final(rt)),
            final(rt).destroyed() == old(rt).destroyed(),
            final(rt).model() == old(rt).model(),
            final(rt).destroy_queue() == old(rt).destroy_queue(),
            final(rt).rendered_queue() == old(rt).rendered_queue().push(
                RenderedComponent { cell: self.scope.cell, first_render: false },
            ),
            exists|m: C::Message|
                self.function.ensures((input,), m) && final(rt).update_queue()
                    == #[trigger] old(rt).update_queue().push(
                    UpdateComponent { cell: self.scope.cell, update: ComponentUpdate::Message(m) },
                ),
    {
        let msg = (self.function)(input);
        self.scope.send_message(rt, msg);
    }
}

impl<C: Component, F> CallbackOnce<C, F> {
    /// Invokes the callback, which is spent by it.
    pub fn emit<IN>(self, rt: &mut Runtime<C>, input: IN)
        where
            F: FnOnce(IN) -> C::Message,
        requires
            self.function.requires((input,)),
            !old(rt).destroyed().contains(self.scope.cell),
        ensures
            all_kept(*old(rt), *final(rt)),
            final(rt).destroyed() == old(rt).destroyed(),
            final(rt).model() == old(rt).model(),
            final(rt).destroy_queue() == old(rt).destroy_queue(),
            final(rt).rendered_queue() == old(rt).rendered_queue().push(
                RenderedComponent { cell: self.scope.cell, first_render: false },
            ),
            exists|m: C::Message|
                self.function.ensures((input,), m) && final(rt).update_queue()
                    == #[trigger] old(rt).update_queue().push(
                    UpdateComponent { cell: self.scope.cell, update: ComponentUpdate::Message(m) },
                ),
    {
        let CallbackOnce { scope, function } = self;
        let msg = function(input);
        scope.send_message(rt, msg);
    }
}

impl<C: Component, F> BatchCallback<C, F> {
    /// Invokes the callback: schedules the batch computed from `input`.
    pub fn emit<IN>(&self, rt: &mut Runtime<C>, input: IN)
        where
            F: Fn(IN) -> Vec<C::Message>,
        requires
            self.function.requires((input,)),
            !old(rt).destroyed().contains(self.scope.cell),
        ensures
            all_kept(*old(rt), *final(rt)),
            final(rt).destroyed() == old(rt).destroyed(),
            final(rt).model() == old(rt).model(),
            final(rt).destroy_queue() == old(rt).destroy_queue(),
            final(rt).rendered_queue() == old(rt).rendered_queue().push(
                RenderedComponent { cell: self.scope.cell, first_render: false },
            ),
            exists|ms: Vec<C::Message>|
                self.function.ensures((input,), ms) && final(rt).update_queue()
                    == #[trigger] old(rt).update_queue().push(
                    UpdateComponent { cell: self.scope.cell, update: ComponentUpdate::MessageBatch(ms) },
                ),
    {
        let messages = (self.function)(input);
        self.scope.send_message_batch(rt, messages);
    }
}

impl Clone for AnyScope {
    fn clone(&self) -> (r: Self)
        ensures
            r == *self,
        decreases self,
    {
        let parent = match &self.parent {
            Some(p) => Some(Box::new((**p).clone())),
            None => None,
        };
        AnyScope { type_id: self.type_id, parent, cell: self.cell }
    }
}

} // verus!
