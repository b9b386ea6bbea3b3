use vstd::prelude::*;

use indextree::{Arena, NodeId};

verus! {

#[verifier::external_type_specification]
#[verifier::external_body]
#[verifier::reject_recursive_types(T)]
pub struct ExArena<T>(indextree::Arena<T>);

#[verifier::external_type_specification]
#[verifier::external_body]
pub struct ExNodeId(indextree::NodeId);

/// The kinds of element that the tree builder creates.
#[derive(Clone, Copy, Debug, PartialEq, Eq, Structural)]
pub enum ElementKind {
    Html,
    Head,
    Body,
    Br,
}

/// An element of the document tree.
#[derive(Clone, Copy, Debug, PartialEq, Eq, Structural)]
pub struct Element {
    pub kind: ElementKind,
}

impl Element {
    pub fn new(kind: ElementKind) -> (r: Element)
        ensures
            r.kind == kind,
    {
        Element { kind }
    }
}

/// One slot of an indextree arena: the id that names it, its data, the index
/// of its parent and the indices of its children in order.
pub struct Slot {
    pub handle: NodeId,
    pub element: Element,
    pub parent: Option<nat>,
    pub children: Seq<nat>,
}

/// The slots of an arena, in index order. This library never removes a node,
/// so every slot holds a live node.
pub uninterp spec fn arena_slots(a: indextree::Arena<Element>) -> Seq<Slot>;

/// The zero-based slot index that a node id names.
pub uninterp spec fn node_index(id: indextree::NodeId) -> nat;

/// Whether `id` is the id of a slot of the arena.
pub open spec fn names_slot(a: Arena<Element>, id: NodeId) -> bool {
    &&& node_index(id) < arena_slots(a).len()
    &&& arena_slots(a)[node_index(id) as int].handle == id
}

/// Relies on indextree's `Arena::new`: a new arena holds no node.
#[verifier::external_body]
fn arena_new() -> (r: Arena<Element>)
    ensures
        arena_slots(r) == Seq::<Slot>::empty(),
{
    Arena::new()
}

/// Relies on indextree's `Arena::new_node`: in an arena without removed
/// nodes the node goes into a new slot at the end, with no parent and no
/// children, and the id returned names that slot. It panics only when the
/// slot count would overflow, which `requires` leaves out.
#[verifier::external_body]
fn arena_new_node(a: &mut Arena<Element>, e: Element) -> (r: NodeId)
    requires
        arena_slots(*old(a)).len() + 1 < usize::MAX,
    ensures
        node_index(r) == arena_slots(*old(a)).len(),
        arena_slots(*final(a)) == arena_slots(*old(a)).push(
            Slot { handle: r, element: e, parent: None, children: Seq::empty() },
        ),
{
    a.new_node(e)
}

/// Relies on indextree's `NodeId::append`: the child gets `parent` as its
/// parent and becomes its last child. It panics when the child is the parent,
/// one of its ancestors, or removed; a live child with no children that is
/// not the parent is none of these.
#[verifier::external_body]
fn arena_append(a: &mut Arena<Element>, parent: NodeId, child: NodeId)
    requires
        names_slot(*old(a), parent),
        names_slot(*old(a), child),
        node_index(parent) != node_index(child),
        arena_slots(*old(a))[node_index(child) as int].parent is None,
        arena_slots(*old(a))[node_index(child) as int].children.len() == 0,
    ensures
        arena_slots(*final(a)) == ({
            let s = arena_slots(*old(a));
            let p = node_index(parent) as int;
            let c = node_index(child) as int;
            s.update(c, Slot { parent: Some(p as nat), ..s[c] }).update(
                p,
                Slot { children: s[p].children.push(c as nat), ..s[p] },
            )
        }),
{
    parent.append(child, a)
}

/// Relies on indextree's `NodeId::parent`: the id of the parent, when there
/// is one.
#[verifier::external_body]
fn arena_parent(a: &Arena<Element>, id: NodeId) -> (r: Option<NodeId>)
    requires
        names_slot(*a, id),
    ensures
        match arena_slots(*a)[node_index(id) as int].parent {
            None => r is None,
            Some(p) => r matches Some(q) && node_index(q) == p,
        },
{
    id.parent(a)
}

/// Relies on indextree's `NodeId::children`: the ids of the children, first
/// to last.
#[verifier::external_body]
fn arena_children(a: &Arena<Element>, id: NodeId) -> (r: Vec<NodeId>)
    requires
        names_slot(*a, id),
    ensures
        r@.len() == arena_slots(*a)[node_index(id) as int].children.len(),
        forall|k: int|
            0 <= k < r@.len() ==> node_index(#[trigger] r@[k]) == arena_slots(*a)[node_index(id) as int].children[k],
{
    id.children(a).collect()
}

/// Relies on indextree's `From<NodeId> for usize`: the one-based index of the
/// slot.
#[verifier::external_body]
fn node_number(id: NodeId) -> (r: usize)
    ensures
        r == node_index(id) + 1,
{
    usize::from(id)
}

/// Relies on indextree's `Index<NodeId>` for `Arena` and `Node::get`: the data
/// stored in a live node.
#[verifier::external_body]
fn arena_element(a: &Arena<Element>, id: NodeId) -> (r: Element)
    requires
        names_slot(*a, id),
    ensures
        r == arena_slots(*a)[node_index(id) as int].element,
{
    *a[id].get()
}

/// A node of the document, as a value: its element, the handle of its parent
/// and the handles of its children in order.
pub struct NodeModel {
    pub element: Element,
    pub parent: Option<nat>,
    pub children: Seq<nat>,
}

pub open spec fn slot_model(s: Slot) -> NodeModel {
    NodeModel { element: s.element, parent: s.parent, children: s.children }
}

/// The document with a new node for `e` at the end, appended as last child
/// of `parent` when there is one.
pub open spec fn doc_insert(d: Seq<NodeModel>, e: Element, parent: Option<nat>) -> Seq<NodeModel> {
    let n = NodeModel { element: e, parent, children: Seq::empty() };
    match parent {
        None => d.push(n),
        Some(p) => d.push(n).update(p as int, NodeModel { children: d[p as int].children.push(d.len()), ..d[p as int] }),
    }
}

/// The node tree: an arena of elements addressed by handles. A handle is the
/// position of its node in allocation order and stays valid as long as the
/// tree lives.
pub struct Document {
    arena: Arena<Element>,
    handles: Vec<NodeId>,
}

impl View for Document {
    type V = Seq<NodeModel>;

    closed spec fn view(&self) -> Seq<NodeModel> {
        arena_slots(self.arena).map_values(|s: Slot| slot_model(s))
    }
}

impl Document {
    pub closed spec fn wf(&self) -> bool {
        &&& self.handles@.len() == arena_slots(self.arena).len()
        &&& forall|i: int|
            0 <= i < self.handles@.len() ==> node_index(#[trigger] self.handles@[i]) == i
                && arena_slots(self.arena)[i].handle == self.handles@[i]
    }

    /// An empty tree.
    pub fn new() -> (r: Document)
        ensures
            r.wf(),
            r@ == Seq::<NodeModel>::empty(),
    {
        let d = Document { arena: arena_new(), handles: Vec::new() };
        assert(d@ =~= Seq::<NodeModel>::empty());
        d
    }

    /// The number of nodes.
    pub fn len(&self) -> (r: usize)
        requires
            self.wf(),
        ensures
            r == self@.len(),
    {
        self.handles.len()
    }

    /// Allocates a node for `element` and, when `parent` is given, appends it
    /// as the parent's last child. Returns the handle of the new node.
    pub fn new_node(&mut self, element: Element, parent: Option<usize>) -> (r: usize)
        requires
            old(self).wf(),
            old(self)@.len() + 1 < usize::MAX,
            parent matches Some(p) ==> p < old(self)@.len(),
        ensures
            final(self).wf(),
            r == old(self)@.len(),
            final(self)@ == doc_insert(
                old(self)@,
                element,
                match parent {
                    Some(p) => Some(p as nat),
                    None => None,
                },
            ),
    {
        let ghost s0 = arena_slots(self.arena);
        let id = arena_new_node(&mut self.arena, element);
        let r = self.handles.len();
        self.handles.push(id);
        let ghost s1 = arena_slots(self.arena);
        assert(self.wf()) by {
            assert forall|i: int| 0 <= i < self.handles@.len() implies node_index(#[trigger] self.handles@[i]) == i
                && arena_slots(self.arena)[i].handle == self.handles@[i] by {
                if i < r {
                    assert(self.handles@[i] == old(self).handles@[i]);
                }
            }
        }
        match parent {
            Some(p) => {
                let pid = self.handles[p];
                assert(self.handles@[p as int] == pid);
                assert(self.handles@[r as int] == id);
                arena_append(&mut self.arena, pid, id);
                let ghost s2 = arena_slots(self.arena);
                assert(self.wf()) by {
                    assert forall|i: int| 0 <= i < self.handles@.len() implies node_index(#[trigger] self.handles@[i]) == i
                        && arena_slots(self.arena)[i].handle == self.handles@[i] by {
                        assert(s2[i].handle == s1[i].handle);
                    }
                }
                assert(self@ =~= doc_insert(old(self)@, element, Some(p as nat)));
            },
            None => {
                assert(self@ =~= doc_insert(old(self)@, element, None));
            },
        }
        r
    }

    /// The element of the node with handle `h`.
    pub fn element(&self, h: usize) -> (r: Element)
        requires
            self.wf(),
            h < self@.len(),
        ensures
            r == self@[h as int].element,
    {
        let id = self.handles[h];
        arena_element(&self.arena, id)
    }

    /// The handle of the parent of node `h`, if it has one.
    pub fn parent(&self, h: usize) -> (r: Option<usize>)
        requires
            self.wf(),
            h < self@.len(),
        ensures
            r matches Some(p) ==> self@[h as int].parent == Some(p as nat),
            r is None ==> self@[h as int].parent is None,
    {
        let id = self.handles[h];
        match arena_parent(&self.arena, id) {
            Some(q) => {
                let n = node_number(q);
                Some(n - 1)
            },
            None => None,
        }
    }

    /// The handles of the children of node `h`, first to last.
    pub fn children(&self, h: usize) -> (r: Vec<usize>)
        requires
            self.wf(),
            h < self@.len(),
        ensures
            r@.len() == self@[h as int].children.len(),
            forall|k: int| 0 <= k < r@.len() ==> #[trigger] r@[k] as nat == self@[h as int].children[k],
    {
        let ids = arena_children(&self.arena, self.handles[h]);
        let mut out: Vec<usize> = Vec::new();
        let mut k: usize = 0;
        while k < ids.len()
            invariant
                self.wf(),
                h < self@.len(),
                ids@.len() == self@[h as int].children.len(),
                forall|j: int|
                    0 <= j < ids@.len() ==> node_index(#[trigger] ids@[j]) == self@[h as int].children[j],
                k <= ids@.len(),
                out@.len() == k,
                forall|j: int| 0 <= j < k ==> #[trigger] out@[j] as nat == self@[h as int].children[j],
            decreases ids@.len() - k,
        {
            let n = node_number(ids[k]);
            out.push(n - 1);
            k = k + 1;
        }
        out
    }

    /// Every node as a pair of its handle and its element, in allocation
    /// order.
    pub fn iterate(&self) -> (r: Vec<(usize, Element)>)
        requires
            self.wf(),
        ensures
            r@.len() == self@.len(),
            forall|i: int| 0 <= i < r@.len() ==> #[trigger] r@[i] == (i as usize, self@[i].element),
    {
        let mut out: Vec<(usize, Element)> = Vec::new();
        let mut i: usize = 0;
        while i < self.handles.len()
            invariant
                self.wf(),
                i <= self@.len(),
                out@.len() == i,
                forall|j: int| 0 <= j < i ==> #[trigger] out@[j] == (j as usize, self@[j].element),
            decreases self@.len() - i,
        {
            let e = self.element(i);
            out.push((i, e));
            i = i + 1;
        }
        out
    }
}

} // verus!
