//! Saving the host's pipeline state before the overlay draws, and putting it
//! back afterwards.

use vstd::prelude::*;
use crate::d3d11_impl::context::{
    apply, restore_category, run, same_category, same_slots, Binding, Command, ContextView,
    PipelineState, PipelineView, StateCategory,
};

verus! {

/// The kinds of state in the order in which they are read from the device
/// context when it is saved, which is also the order in which they are put
/// back.
pub open spec fn capture_order() -> Seq<StateCategory> {
    seq![
        StateCategory::ScissorRects,
        StateCategory::Viewports,
        StateCategory::RasterizerState,
        StateCategory::BlendState,
        StateCategory::DepthStencilState,
        StateCategory::PixelShaderResources,
        StateCategory::PixelSamplers,
        StateCategory::PixelShader,
        StateCategory::VertexShader,
        StateCategory::VertexConstantBuffers,
        StateCategory::GeometryShader,
        StateCategory::PrimitiveTopology,
        StateCategory::IndexBuffer,
        StateCategory::VertexBuffer,
        StateCategory::InputLayout,
    ]
}

/// The commands that put a saved state back: one for each kind of state, in
/// the order in which the state was saved.
pub open spec fn restore_commands() -> Seq<Command> {
    capture_order().map_values(|category: StateCategory| Command::Restore { category })
}

/// Running one more command is applying it to what the commands before it
/// left.
pub proof fn lemma_run_push(cmds: Seq<Command>, cmd: Command, saved: PipelineView, s: ContextView)
    ensures
        run(cmds.push(cmd), saved, s) == apply(cmd, saved, run(cmds, saved, s)),
{
    assert(cmds.push(cmd).drop_last() =~= cmds);
}

/// Putting one kind of state back makes that kind what was saved and leaves
/// every other kind as it is.
pub proof fn lemma_restore_category(
    category: StateCategory,
    other: StateCategory,
    saved: PipelineView,
    s: PipelineView,
)
    requires
        same_slots(s, saved),
    ensures
        same_category(category, restore_category(category, saved, s), saved),
        other != category ==> same_category(other, restore_category(category, saved, s), s),
        same_slots(restore_category(category, saved, s), saved),
{
    let r = restore_category(category, saved, s);
    assert(r.ps_shader_resources =~= (if category == StateCategory::PixelShaderResources {
        saved.ps_shader_resources
    } else {
        s.ps_shader_resources
    }));
    assert(r.ps_samplers =~= (if category == StateCategory::PixelSamplers {
        saved.ps_samplers
    } else {
        s.ps_samplers
    }));
    assert(r.vs_constant_buffers =~= (if category == StateCategory::VertexConstantBuffers {
        saved.vs_constant_buffers
    } else {
        s.vs_constant_buffers
    }));
}

/// Where a kind of state stands in `capture_order`.
pub open spec fn position(category: StateCategory) -> int {
    match category {
        StateCategory::ScissorRects => 0,
        StateCategory::Viewports => 1,
        StateCategory::RasterizerState => 2,
        StateCategory::BlendState => 3,
        StateCategory::DepthStencilState => 4,
        StateCategory::PixelShaderResources => 5,
        StateCategory::PixelSamplers => 6,
        StateCategory::PixelShader => 7,
        StateCategory::VertexShader => 8,
        StateCategory::VertexConstantBuffers => 9,
        StateCategory::GeometryShader => 10,
        StateCategory::PrimitiveTopology => 11,
        StateCategory::IndexBuffer => 12,
        StateCategory::VertexBuffer => 13,
        StateCategory::InputLayout => 14,
    }
}

/// Every kind of state stands in `capture_order`, once, at its position.
pub proof fn lemma_capture_order_is_complete()
    ensures
        forall|category: StateCategory|
            0 <= #[trigger] position(category) < capture_order().len()
                && capture_order()[position(category)] == category,
        forall|i: int|
            0 <= i < capture_order().len() ==> position(#[trigger] capture_order()[i]) == i,
{
    assert forall|i: int| 0 <= i < capture_order().len() implies position(
        #[trigger] capture_order()[i],
    ) == i by {
        assert(position(capture_order()[0]) == 0);
        assert(position(capture_order()[1]) == 1);
        assert(position(capture_order()[2]) == 2);
        assert(position(capture_order()[3]) == 3);
        assert(position(capture_order()[4]) == 4);
        assert(position(capture_order()[5]) == 5);
        assert(position(capture_order()[6]) == 6);
        assert(position(capture_order()[7]) == 7);
        assert(position(capture_order()[8]) == 8);
        assert(position(capture_order()[9]) == 9);
        assert(position(capture_order()[10]) == 10);
        assert(position(capture_order()[11]) == 11);
        assert(position(capture_order()[12]) == 12);
        assert(position(capture_order()[13]) == 13);
        assert(position(capture_order()[14]) == 14);
    }
}

/// Two states that hold the same of every kind of state are the same state.
pub proof fn lemma_same_in_every_category(a: PipelineView, b: PipelineView)
    requires
        forall|category: StateCategory| same_category(category, a, b),
    ensures
        a == b,
{
    assert(same_category(StateCategory::ScissorRects, a, b));
    assert(same_category(StateCategory::Viewports, a, b));
    assert(same_category(StateCategory::RasterizerState, a, b));
    assert(same_category(StateCategory::BlendState, a, b));
    assert(same_category(StateCategory::DepthStencilState, a, b));
    assert(same_category(StateCategory::PixelShaderResources, a, b));
    assert(same_category(StateCategory::PixelSamplers, a, b));
    assert(same_category(StateCategory::PixelShader, a, b));
    assert(same_category(StateCategory::VertexShader, a, b));
    assert(same_category(StateCategory::VertexConstantBuffers, a, b));
    assert(same_category(StateCategory::GeometryShader, a, b));
    assert(same_category(StateCategory::PrimitiveTopology, a, b));
    assert(same_category(StateCategory::IndexBuffer, a, b));
    assert(same_category(StateCategory::VertexBuffer, a, b));
    assert(same_category(StateCategory::InputLayout, a, b));
}

/// After the first `n` of the commands that put a saved state back, the first
/// `n` kinds of state are what was saved, and nothing but the saved part of
/// the context's state has changed.
pub proof fn lemma_restore_upto(saved: PipelineView, s: ContextView, n: int)
    requires
        same_slots(s.pipeline, saved),
        0 <= n <= capture_order().len(),
    ensures
        ({
            let r = run(restore_commands().take(n), saved, s);
            &&& r == (ContextView { pipeline: r.pipeline, ..s })
            &&& same_slots(r.pipeline, saved)
            &&& forall|i: int|
                0 <= i < n ==> same_category(#[trigger] capture_order()[i], r.pipeline, saved)
        }),
    decreases n,
{
    if n > 0 {
        lemma_restore_upto(saved, s, n - 1);
        lemma_capture_order_is_complete();
        let done = restore_commands().take(n - 1);
        let category = capture_order()[n - 1];
        let before = run(done, saved, s).pipeline;
        assert(restore_commands().take(n) =~= done.push(Command::Restore { category }));
        lemma_run_push(done, Command::Restore { category }, saved, s);
        assert forall|i: int| 0 <= i < n implies same_category(
            #[trigger] capture_order()[i],
            restore_category(category, saved, before),
            saved,
        ) by {
            lemma_restore_category(category, capture_order()[i], saved, before);
        }
        lemma_restore_category(category, category, saved, before);
    } else {
        assert(restore_commands().take(0) =~= Seq::<Command>::empty());
    }
}

/// Putting a saved state back binds all of it again, whatever was bound in
/// between, and touches nothing else: afterwards the saved part of the
/// context's state is the saved state, and the rest is as it was.
pub proof fn lemma_restore_rebinds(saved: PipelineView, s: ContextView)
    requires
        same_slots(s.pipeline, saved),
    ensures
        run(restore_commands(), saved, s) == (ContextView { pipeline: saved, ..s }),
{
    let n = capture_order().len() as int;
    lemma_restore_upto(saved, s, n);
    lemma_capture_order_is_complete();
    assert(restore_commands().take(n) =~= restore_commands());
    let r = run(restore_commands(), saved, s);
    assert forall|category: StateCategory| same_category(category, r.pipeline, saved) by {
        assert(capture_order()[position(category)] == category);
    }
    lemma_same_in_every_category(r.pipeline, saved);
}

/// Round trip: saving the state and putting it back at once, with nothing done
/// in between, leaves the context exactly as it was.
pub proof fn lemma_backup_restore_round_trip(s: ContextView)
    ensures
        run(restore_commands(), s.pipeline, s) == s,
{
    lemma_restore_rebinds(s.pipeline, s);
}

/// Round trip, kind by kind: after saving and putting back, each kind of state
/// is what it was before.
pub proof fn lemma_round_trip_by_category(s: ContextView, category: StateCategory)
    ensures
        same_category(category, run(restore_commands(), s.pipeline, s).pipeline, s.pipeline),
{
    lemma_backup_restore_round_trip(s);
}

/// Whatever commands `work` are run after the state was saved, and however
/// many of them, putting the state back afterwards leaves the saved part of the
/// context's state exactly as it was when it was saved.
pub proof fn lemma_restore_after_work(work: Seq<Command>, s: ContextView)
    ensures
        run(work + restore_commands(), s.pipeline, s).pipeline == s.pipeline,
{
    crate::d3d11_impl::context::lemma_run_concat(work, restore_commands(), s.pipeline, s);
    crate::d3d11_impl::context::lemma_run_keeps_slots(work, s.pipeline, s);
    lemma_restore_rebinds(s.pipeline, run(work, s.pipeline, s));
}

/// The host's pipeline state, saved at the start of a render call.
#[derive(Debug)]
pub struct StateBackup {
    state: PipelineState,
}

impl View for StateBackup {
    type V = PipelineView;

    closed spec fn view(&self) -> PipelineView {
        self.state@
    }
}

impl StateBackup {
    /// Saves `context`, the state that was read from the device context.
    pub fn backup(context: PipelineState) -> (saved: Self)
        ensures
            saved@ == context@,
    {
        Self { state: context }
    }

    /// The kinds of state in the order in which they are read from the device
    /// context.
    pub fn capture_order() -> (order: Vec<StateCategory>)
        ensures
            order@ == capture_order(),
    {
        let mut order: Vec<StateCategory> = Vec::new();
        order.push(StateCategory::ScissorRects);
        order.push(StateCategory::Viewports);
        order.push(StateCategory::RasterizerState);
        order.push(StateCategory::BlendState);
        order.push(StateCategory::DepthStencilState);
        order.push(StateCategory::PixelShaderResources);
        order.push(StateCategory::PixelSamplers);
        order.push(StateCategory::PixelShader);
        order.push(StateCategory::VertexShader);
        order.push(StateCategory::VertexConstantBuffers);
        order.push(StateCategory::GeometryShader);
        order.push(StateCategory::PrimitiveTopology);
        order.push(StateCategory::IndexBuffer);
        order.push(StateCategory::VertexBuffer);
        order.push(StateCategory::InputLayout);
        order
    }

    /// The saved state.
    pub fn state(&self) -> (state: &PipelineState)
        ensures
            state@ == self@,
    {
        &self.state
    }

    /// What was saved of `category`, as the arguments of the call that a
    /// `Restore` command of that kind makes.
    pub fn saved(&self, category: StateCategory) -> (binding: Binding)
        ensures
            binding.category() == category,
            forall|s: PipelineView| #[trigger]
                binding.bound(s) == restore_category(category, self@, s),
    {
        self.state.binding(category)
    }

    /// The commands that put the saved state back.
    pub fn restore(&self) -> (commands: Vec<Command>)
        ensures
            commands@ == restore_commands(),
    {
        let order = Self::capture_order();
        let mut commands: Vec<Command> = Vec::new();
        let mut i: usize = 0;
        while i < order.len()
            invariant
                i <= order.len(),
                order@ == capture_order(),
                commands@ == restore_commands().take(i as int),
            decreases order.len() - i,
        {
            commands.push(Command::Restore { category: order[i] });
            i = i + 1;
        }
        commands
    }
}

} // verus!
