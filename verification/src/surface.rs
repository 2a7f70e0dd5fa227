//! Model of a host UI surface and its refresh protocol.
//!
//! A surface is a host-managed menu that this engine populates from inside
//! a refresh callback. The host protocol demands that every refresh first
//! reset the surface and only then append its items; otherwise the items
//! accumulate across refreshes. The two refresh callbacks of this engine —
//! the main menu and the say surface — are written against this model, and
//! the reset-then-append law is proved once for every item sequence.

use vstd::prelude::*;

use crate::registry::{
    model_get_or_create, spec_key_content, BufferKey, BufferRegistry,
};
use crate::state::ExtensionState;

verus! {

/// One menu entry: the label shown to the user and the host command line
/// executed when it is picked. Both point at process-lifetime buffers; the
/// model keeps their contents.
pub struct MenuItem {
    pub label: String,
    pub action: String,
}

/// A registered host surface: its opaque handle and the items it shows.
pub struct Surface {
    pub handle: u64,
    pub items: Vec<MenuItem>,
}

/// One operation of the host's surface protocol.
pub enum SurfaceOp {
    /// Drop every item the surface currently shows.
    Reset,
    /// Append one item.
    AddItem { label: Seq<char>, action: Seq<char> },
}

/// The label and action an `AddItem` appends; irrelevant for `Reset`.
pub open spec fn op_item(op: SurfaceOp) -> (Seq<char>, Seq<char>) {
    match op {
        SurfaceOp::AddItem { label, action } => (label, action),
        SurfaceOp::Reset => (Seq::empty(), Seq::empty()),
    }
}

/// Effect of one protocol operation on a surface's item list.
pub open spec fn apply_op(
    items: Seq<(Seq<char>, Seq<char>)>,
    op: SurfaceOp,
) -> Seq<(Seq<char>, Seq<char>)> {
    match op {
        SurfaceOp::Reset => Seq::empty(),
        SurfaceOp::AddItem { label, action } => items.push((label, action)),
    }
}

/// Effect of a whole operation sequence, first operation first.
pub open spec fn apply_ops(
    items: Seq<(Seq<char>, Seq<char>)>,
    ops: Seq<SurfaceOp>,
) -> Seq<(Seq<char>, Seq<char>)>
    decreases ops.len(),
{
    if ops.len() == 0 {
        items
    } else {
        apply_ops(apply_op(items, ops[0]), ops.drop_first())
    }
}

/// Appending items only: afterwards the surface shows what it showed
/// before, followed by exactly the appended items, in order.
pub proof fn lemma_apply_adds(items: Seq<(Seq<char>, Seq<char>)>, adds: Seq<SurfaceOp>)
    requires
        forall|i: int| 0 <= i < adds.len() ==> (#[trigger] adds[i]) is AddItem,
    ensures
        apply_ops(items, adds) == items + adds.map_values(|op: SurfaceOp| op_item(op)),
    decreases adds.len(),
{
    if adds.len() == 0 {
        assert(apply_ops(items, adds) =~= items + adds.map_values(|op: SurfaceOp| op_item(op)));
    } else {
        let first = adds[0];
        let rest = adds.drop_first();
        lemma_apply_adds(apply_op(items, first), rest);
        assert(apply_op(items, first) == items.push(op_item(first)));
        assert(items.push(op_item(first)) + rest.map_values(|op: SurfaceOp| op_item(op)) =~= items
            + adds.map_values(|op: SurfaceOp| op_item(op)));
    }
}

/// The reset-then-append law: a reset followed by N appends yields exactly
/// those N items, whatever the surface showed before — repeated refreshes
/// never accumulate duplicates.
pub proof fn lemma_reset_then_adds(items: Seq<(Seq<char>, Seq<char>)>, adds: Seq<SurfaceOp>)
    requires
        forall|i: int| 0 <= i < adds.len() ==> (#[trigger] adds[i]) is AddItem,
    ensures
        apply_ops(items, seq![SurfaceOp::Reset] + adds) == adds.map_values(
            |op: SurfaceOp| op_item(op),
        ),
        apply_ops(items, seq![SurfaceOp::Reset] + adds).len() == adds.len(),
{
    let ops = seq![SurfaceOp::Reset] + adds;
    assert(ops[0] is Reset);
    assert(ops.drop_first() =~= adds);
    assert(apply_op(items, ops[0]) =~= Seq::<(Seq<char>, Seq<char>)>::empty());
    lemma_apply_adds(Seq::empty(), adds);
    assert(Seq::<(Seq<char>, Seq<char>)>::empty() + adds.map_values(|op: SurfaceOp| op_item(op))
        =~= adds.map_values(|op: SurfaceOp| op_item(op)));
}

impl Surface {
    /// Abstract value: the contents of the items, in display order.
    pub open spec fn model(self) -> Seq<(Seq<char>, Seq<char>)> {
        self.items@.map_values(|it: MenuItem| (it.label@, it.action@))
    }

    /// A freshly registered surface: the host starts it with no items.
    pub fn new(handle: u64) -> (r: Surface)
        ensures
            r.handle == handle,
            r.model() == Seq::<(Seq<char>, Seq<char>)>::empty(),
    {
        let r = Surface { handle, items: Vec::new() };
        proof {
            assert(r.model() =~= Seq::<(Seq<char>, Seq<char>)>::empty());
        }
        r
    }

    /// The host's reset entry point: drop every item.
    pub fn reset(&mut self)
        ensures
            final(self).handle == old(self).handle,
            final(self).model() == apply_op(old(self).model(), SurfaceOp::Reset),
    {
        self.items = Vec::new();
        proof {
            assert(self.model() =~= Seq::<(Seq<char>, Seq<char>)>::empty());
        }
    }

    /// The host's manual-item entry point: append one item.
    pub fn add_item(&mut self, label: String, action: String)
        ensures
            final(self).handle == old(self).handle,
            final(self).model() == apply_op(
                old(self).model(),
                SurfaceOp::AddItem { label: label@, action: action@ },
            ),
    {
        let ghost l = label@;
        let ghost a = action@;
        self.items.push(MenuItem { label, action });
        proof {
            assert(self.model() =~= old(self).model().push((l, a)));
        }
    }
}

/// Registry state after the main refresh fetched its four buffers.
pub open spec fn spec_main_refresh_registry(
    m: Seq<(BufferKey, Seq<char>)>,
) -> Seq<(BufferKey, Seq<char>)> {
    let m1 = model_get_or_create(m, BufferKey::ItemHelloLabel).0;
    let m2 = model_get_or_create(m1, BufferKey::ItemHelloAction).0;
    let m3 = model_get_or_create(m2, BufferKey::ItemCloseLabel).0;
    model_get_or_create(m3, BufferKey::ItemCloseAction).0
}

/// The protocol operations one main-menu refresh performs: a reset, then
/// the hello item, then the close item.
pub open spec fn spec_main_refresh_ops() -> Seq<SurfaceOp> {
    seq![
        SurfaceOp::Reset,
        SurfaceOp::AddItem {
            label: spec_key_content(BufferKey::ItemHelloLabel),
            action: spec_key_content(BufferKey::ItemHelloAction),
        },
        SurfaceOp::AddItem {
            label: spec_key_content(BufferKey::ItemCloseLabel),
            action: spec_key_content(BufferKey::ItemCloseAction),
        },
    ]
}

/// The items the main menu shows after any refresh.
pub open spec fn spec_main_menu_items() -> Seq<(Seq<char>, Seq<char>)> {
    seq![
        (
            spec_key_content(BufferKey::ItemHelloLabel),
            spec_key_content(BufferKey::ItemHelloAction),
        ),
        (
            spec_key_content(BufferKey::ItemCloseLabel),
            spec_key_content(BufferKey::ItemCloseAction),
        ),
    ]
}

/// The main menu's refresh callback: reset the surface, then append the
/// hello item and the close item, their texts taken from the get-or-create
/// buffers. Whatever the surface showed before, it shows exactly those two
/// items afterwards.
pub fn refresh_main_menu(surface: &mut Surface, reg: &mut BufferRegistry)
    requires
        old(reg).wf(),
        old(reg).model().len() + 4 <= usize::MAX,
    ensures
        final(reg).wf(),
        final(reg).model() == spec_main_refresh_registry(old(reg).model()),
        final(surface).handle == old(surface).handle,
        final(surface).model() == apply_ops(old(surface).model(), spec_main_refresh_ops()),
        final(surface).model() == spec_main_menu_items(),
{
    surface.reset();

    let hello_label_slot = reg.get_or_create(BufferKey::ItemHelloLabel);
    let label = reg.entries[hello_label_slot].text.clone();
    let hello_action_slot = reg.get_or_create(BufferKey::ItemHelloAction);
    let action = reg.entries[hello_action_slot].text.clone();
    surface.add_item(label, action);

    let close_label_slot = reg.get_or_create(BufferKey::ItemCloseLabel);
    let label = reg.entries[close_label_slot].text.clone();
    let close_action_slot = reg.get_or_create(BufferKey::ItemCloseAction);
    let action = reg.entries[close_action_slot].text.clone();
    surface.add_item(label, action);

    proof {
        assert(surface.model() =~= spec_main_menu_items());
        let adds = spec_main_refresh_ops().drop_first();
        assert(spec_main_refresh_ops() =~= seq![SurfaceOp::Reset] + adds);
        lemma_reset_then_adds(old(surface).model(), adds);
        assert(adds.map_values(|op: SurfaceOp| op_item(op)) =~= spec_main_menu_items());
    }
}

/// The protocol operations one say refresh performs: a reset, then the
/// one item showing the stored payload.
pub open spec fn spec_say_refresh_ops(payload: Seq<char>) -> Seq<SurfaceOp> {
    seq![
        SurfaceOp::Reset,
        SurfaceOp::AddItem {
            label: payload,
            action: spec_key_content(BufferKey::SayCloseAction),
        },
    ]
}

/// Registry state after the say refresh fetched its action buffer.
pub open spec fn spec_say_refresh_registry(
    m: Seq<(BufferKey, Seq<char>)>,
) -> Seq<(BufferKey, Seq<char>)> {
    model_get_or_create(m, BufferKey::SayCloseAction).0
}

/// The say surface's refresh callback: reset, then show one item whose
/// label is the stored say payload and whose action closes the surface.
pub fn refresh_say_surface(surface: &mut Surface, reg: &mut BufferRegistry, st: &ExtensionState)
    requires
        old(reg).wf(),
        old(reg).model().len() + 1 <= usize::MAX,
        st.say_text_set,
    ensures
        final(reg).wf(),
        final(reg).model() == spec_say_refresh_registry(old(reg).model()),
        final(surface).handle == old(surface).handle,
        final(surface).model() == apply_ops(
            old(surface).model(),
            spec_say_refresh_ops(st.model().say_text),
        ),
        final(surface).model() == seq![
            (st.model().say_text, spec_key_content(BufferKey::SayCloseAction)),
        ],
{
    surface.reset();

    let action_slot = reg.get_or_create(BufferKey::SayCloseAction);
    let label = st.say_text.clone();
    let action = reg.entries[action_slot].text.clone();
    surface.add_item(label, action);

    proof {
        assert(surface.model() =~= seq![
            (st.model().say_text, spec_key_content(BufferKey::SayCloseAction)),
        ]);
        let ops = spec_say_refresh_ops(st.model().say_text);
        let adds = ops.drop_first();
        assert(ops =~= seq![SurfaceOp::Reset] + adds);
        lemma_reset_then_adds(old(surface).model(), adds);
        assert(adds.map_values(|op: SurfaceOp| op_item(op)) =~= seq![
            (st.model().say_text, spec_key_content(BufferKey::SayCloseAction)),
        ]);
    }
}

} // verus!
