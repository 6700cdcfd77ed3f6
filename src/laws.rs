//! Laws of the scheduling engine, stated over the outcome of each unit.
use vstd::prelude::*;
use crate::node_ref::{Node, NodeRef, NodeRefSlot, lemma_link_shares_resolution, resolves_to, resolve};
use crate::scope::{
    any_true, destroy_outcome, rendered_outcome, update_hooks, update_outcome, Component,
    ComponentUpdate, Hook, RuntimeModel, UpdateComponent, refs_valid,
};

verus! {

/// The cell `cell` of model `m` holds a mounted component.
pub open spec fn mounted<M, P>(m: RuntimeModel<M, P>, cell: usize) -> bool {
    cell < m.cells.len() && m.cells[cell as int].is_some()
}

/// A batch update of a mounted component calls the update hook once for
/// each message, in the order the messages were sent, and renders exactly
/// when some call asked for it: every message is applied, also after an
/// earlier one has already asked for a render.
pub proof fn lemma_batch_applies_every_message<C: Component>(
    m: RuntimeModel<C::Message, C::Properties>,
    cell: usize,
    msgs: Vec<C::Message>,
    rs: Seq<bool>,
    node: Option<Node>,
    child: Option<NodeRef>,
)
    requires
        mounted(m, cell),
        rs.len() == msgs@.len(),
    ensures
        ({
            let m2 = update_outcome(m, cell, ComponentUpdate::<C>::MessageBatch(msgs), rs, node, child);
            let n = m.history.len();
            &&& m2.history.subrange(0, n as int) == m.history
            &&& forall|i: int|
                0 <= i < msgs@.len() ==> m2.history[n + i] == (Hook::<C::Message, C::Properties>::Update {
                    cell,
                    message: msgs@[i],
                    should_render: rs[i],
                })
            &&& any_true(rs) ==> m2.history == m.history + update_hooks(cell, msgs@, rs)
                + seq![Hook::<C::Message, C::Properties>::View { cell }]
            &&& !any_true(rs) ==> m2.history == m.history + update_hooks(cell, msgs@, rs)
        }),
{
    let m2 = update_outcome(m, cell, ComponentUpdate::<C>::MessageBatch(msgs), rs, node, child);
    let h = m.history + update_hooks::<C::Message, C::Properties>(cell, msgs@, rs);
    if any_true(rs) {
        assert(m2.history =~= h + seq![Hook::View { cell }]);
    }
    assert(m2.history.subrange(0, m.history.len() as int) =~= m.history);
}

/// The forced update that mounting schedules renders the component exactly
/// once, and leaves it waiting for its first post-render notification.
pub proof fn lemma_mount_renders_once<C: Component>(
    m: RuntimeModel<C::Message, C::Properties>,
    cell: usize,
    rs: Seq<bool>,
    node: Option<Node>,
    child: Option<NodeRef>,
)
    requires
        mounted(m, cell),
    ensures
        ({
            let m2 = update_outcome(m, cell, ComponentUpdate::<C>::Force, rs, node, child);
            &&& m2.history == m.history.push(Hook::View { cell })
            &&& m2.cells[cell as int].unwrap().rendered == false
        }),
{
}

/// Work queued after the mount's forced update runs after it: in a queue
/// that holds earlier work, then that update, then later work, the forced
/// update comes before every later unit.
pub proof fn lemma_mount_update_runs_first<C: Component>(
    earlier: Seq<UpdateComponent<C>>,
    later: Seq<UpdateComponent<C>>,
    cell: usize,
)
    ensures
        ({
            let force = UpdateComponent { cell, update: ComponentUpdate::<C>::Force };
            let q = earlier.push(force) + later;
            &&& q[earlier.len() as int] == force
            &&& forall|j: int| 0 <= j < later.len() ==> q[earlier.len() + 1 + j] == later[j]
        }),
{
}

/// A second post-render notification without an update in between does
/// nothing: the hook fires at most once per render.
pub proof fn lemma_rendered_once<M, P>(m: RuntimeModel<M, P>, cell: usize, first: bool, again: bool)
    ensures
        rendered_outcome(rendered_outcome(m, cell, first), cell, again) == rendered_outcome(m, cell, first),
{
}

/// After the teardown of a component, every unit for it that runs later does
/// nothing at all, whatever it carries.
pub proof fn lemma_destroyed_is_inert<C: Component>(
    m: RuntimeModel<C::Message, C::Properties>,
    cell: usize,
    update: ComponentUpdate<C>,
    rs: Seq<bool>,
    node: Option<Node>,
    child: Option<NodeRef>,
    first_render: bool,
)
    ensures
        ({
            let d = destroy_outcome(m, cell);
            &&& !mounted(d, cell)
            &&& update_outcome(d, cell, update, rs, node, child) == d
            &&& rendered_outcome(d, cell, first_render) == d
            &&& destroy_outcome(d, cell) == d
        }),
{
}

/// A property update links the new node reference to the component's own:
/// from then on both resolve to the same nodes, whether the component's
/// reference is resolved by this update's render or later.
pub proof fn lemma_properties_ref_follows<C: Component>(
    m: RuntimeModel<C::Message, C::Properties>,
    cell: usize,
    props: C::Properties,
    r: NodeRef,
    rs: Seq<bool>,
    node: Option<Node>,
    child: Option<NodeRef>,
    n: Node,
)
    requires
        refs_valid(m),
        mounted(m, cell),
        r.index < m.refs.len(),
    ensures
        ({
            let own = m.cells[cell as int].unwrap().node_ref;
            let m2 = update_outcome(m, cell, ComponentUpdate::<C>::Properties(props, r), rs, node, child);
            &&& resolves_to(m2.refs, r, n) <==> resolves_to(m2.refs, own, n)
            &&& rs[0] && node == Some(n) ==> resolves_to(m2.refs, r, n)
        }),
{
    let own = m.cells[cell as int].unwrap().node_ref;
    let m2 = update_outcome(m, cell, ComponentUpdate::<C>::Properties(props, r), rs, node, child);
    assert(m.cells[cell as int] is Some);
    if r != own {
        assert(m2.refs[r.index as int] == (NodeRefSlot { node: None, link: Some(own) }));
        lemma_link_shares_resolution(m2.refs, r, own, n);
    }
    if rs[0] && node == Some(n) {
        assert(resolve(m2.refs, own, 0) == Some(n));
    }
}

} // verus!
