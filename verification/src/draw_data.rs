//! One frame of the GUI library's output as plain values, and the order in
//! which a renderer has to draw it.
//!
//! Vertices, indices and floating-point geometry stay with the embedding
//! program.  What is kept here is what the renderers decide on: how many
//! vertices and indices each draw list holds, and for each batch its index
//! count, its texture and its scissor rectangle in framebuffer pixels.

use vstd::prelude::*;
use crate::types::{is_non_positive, float_is_non_positive, Rect};

verus! {

/// The largest count of vertices, of indices and of drawn indices that one frame
/// may hold.  Within it every offset of a draw call fits its parameter.
pub const MAX_COUNT: usize = 0x7FFF_FFFF;

/// One batch of a draw list.
#[derive(Debug, Clone, Copy, PartialEq, Eq, Structural)]
pub enum DrawCmd {
    /// Draw `count` indices with the texture `texture_id`, clipped to
    /// `clip_rect`.
    Elements { count: usize, clip_rect: Rect, texture_id: usize },
    /// Set the renderer's fixed state up again.
    ResetRenderState,
    /// Call a function of the host's with the draw list and this batch.
    RawCallback,
}

/// One draw list: its share of the frame's vertices and indices, and its
/// batches in drawing order.
#[derive(Debug)]
pub struct DrawList {
    pub vtx_count: usize,
    pub idx_count: usize,
    pub commands: Vec<DrawCmd>,
}

/// The sum of the numbers in `s`.
pub open spec fn sum_of(s: Seq<nat>) -> nat
    decreases s.len(),
{
    if s.len() == 0 {
        0
    } else {
        sum_of(s.drop_last()) + s.last()
    }
}

/// Adding a number at the end adds it to the sum.
pub proof fn lemma_sum_push(s: Seq<nat>, x: nat)
    ensures
        sum_of(s.push(x)) == sum_of(s) + x,
{
    assert(s.push(x).drop_last() =~= s);
}

/// A prefix sums to no more than the whole, and each further number adds to it.
pub proof fn lemma_sum_take(s: Seq<nat>, i: int)
    requires
        0 <= i <= s.len(),
    ensures
        sum_of(s.take(i)) <= sum_of(s),
        i < s.len() ==> sum_of(s.take(i + 1)) == sum_of(s.take(i)) + s[i],
    decreases s.len() - i,
{
    if i < s.len() {
        assert(s.take(i + 1) =~= s.take(i).push(s[i]));
        lemma_sum_push(s.take(i), s[i]);
        lemma_sum_take(s, i + 1);
    } else {
        assert(s.take(i) =~= s);
    }
}

/// The number of indices that a batch draws.
pub open spec fn count_of(cmd: DrawCmd) -> nat {
    match cmd {
        DrawCmd::Elements { count, .. } => count as nat,
        _ => 0,
    }
}

/// The number of indices that the batches `cmds` draw together.
pub open spec fn elements_of(cmds: Seq<DrawCmd>) -> nat {
    sum_of(cmds.map_values(|c: DrawCmd| count_of(c)))
}

/// The number of vertices in `lists`.
pub open spec fn total_vertices(lists: Seq<DrawList>) -> nat {
    sum_of(lists.map_values(|l: DrawList| l.vtx_count as nat))
}

/// The number of indices in `lists`.
pub open spec fn total_indices(lists: Seq<DrawList>) -> nat {
    sum_of(lists.map_values(|l: DrawList| l.idx_count as nat))
}

/// The number of indices that all batches of `lists` draw together.
pub open spec fn total_elements(lists: Seq<DrawList>) -> nat {
    sum_of(lists.map_values(|l: DrawList| elements_of(l.commands@)))
}

/// The frame is small enough to be drawn.
pub open spec fn fits(lists: Seq<DrawList>) -> bool {
    &&& total_vertices(lists) <= MAX_COUNT
    &&& total_indices(lists) <= MAX_COUNT
    &&& total_elements(lists) <= MAX_COUNT
}

/// The texture that is bound once the batches `cmds` are drawn: that of the
/// last batch that draws, or, where none of them draws, what was bound before
/// them, `before`.
pub open spec fn texture_after(cmds: Seq<DrawCmd>, before: Option<usize>) -> Option<usize>
    decreases cmds.len(),
{
    if cmds.len() == 0 {
        before
    } else {
        match cmds.last() {
            DrawCmd::Elements { texture_id, .. } => Some(texture_id),
            _ => texture_after(cmds.drop_last(), before),
        }
    }
}

/// The texture that is bound once all of `lists` are drawn.  Drawing starts
/// with no texture bound.
pub open spec fn texture_after_lists(lists: Seq<DrawList>) -> Option<usize>
    decreases lists.len(),
{
    if lists.len() == 0 {
        None
    } else {
        texture_after(lists.last().commands@, texture_after_lists(lists.drop_last()))
    }
}

/// The texture that is bound when batch `j` of list `i` comes up, if one is.
pub open spec fn texture_before(lists: Seq<DrawList>, i: int, j: int) -> Option<usize> {
    texture_after(lists[i].commands@.take(j), texture_after_lists(lists.take(i)))
}

/// The number of indices drawn before batch `j` of list `i` comes up.
pub open spec fn elements_before(lists: Seq<DrawList>, i: int, j: int) -> nat {
    total_elements(lists.take(i)) + elements_of(lists[i].commands@.take(j))
}

/// The number of vertices in the lists before list `i`.
pub open spec fn vertices_before(lists: Seq<DrawList>, i: int) -> nat {
    total_vertices(lists.take(i))
}

/// The number of indices in the lists before list `i`.
pub open spec fn indices_before(lists: Seq<DrawList>, i: int) -> nat {
    total_indices(lists.take(i))
}

/// One step of drawing a frame.
#[derive(Debug, Clone, Copy, PartialEq, Eq, Structural)]
pub enum DrawOp {
    /// Bind the texture `texture_id` for the batches that follow.
    BindTexture { texture_id: usize },
    /// Clip to `rect`.
    SetScissor { rect: Rect },
    /// Draw `index_count` indices from index `start_index` on, each offset by
    /// `base_vertex`.
    DrawIndexed { index_count: u32, start_index: u32, base_vertex: i32 },
    /// Set the renderer's fixed state up again.
    ResetRenderState,
    /// Call the host's function of batch `command` of draw list `list`.
    RawCallback { list: usize, command: usize },
}

/// The steps for batch `j` of list `i`.  A batch that draws binds its texture
/// unless that very texture is bound, sets its scissor rectangle, and draws from
/// where the batches before it stopped, on the vertices of its own list.
pub open spec fn batch_ops(lists: Seq<DrawList>, i: int, j: int) -> Seq<DrawOp> {
    match lists[i].commands@[j] {
        DrawCmd::Elements { count, clip_rect, texture_id } => {
            let draw = seq![
                DrawOp::SetScissor { rect: clip_rect },
                DrawOp::DrawIndexed {
                    index_count: count as u32,
                    start_index: elements_before(lists, i, j) as u32,
                    base_vertex: vertices_before(lists, i) as i32,
                },
            ];
            if Some(texture_id) != texture_before(lists, i, j) {
                seq![DrawOp::BindTexture { texture_id }] + draw
            } else {
                draw
            }
        },
        DrawCmd::ResetRenderState => seq![DrawOp::ResetRenderState],
        DrawCmd::RawCallback => seq![DrawOp::RawCallback { list: i as usize, command: j as usize }],
    }
}

/// The steps for the first `n` batches of list `i`.
pub open spec fn list_ops_upto(lists: Seq<DrawList>, i: int, n: int) -> Seq<DrawOp> {
    Seq::new(n as nat, |j: int| batch_ops(lists, i, j)).flatten()
}

/// The steps for list `i`.
pub open spec fn list_ops(lists: Seq<DrawList>, i: int) -> Seq<DrawOp> {
    list_ops_upto(lists, i, lists[i].commands@.len() as int)
}

/// The steps for the first `n` lists.
pub open spec fn draw_ops_upto(lists: Seq<DrawList>, n: int) -> Seq<DrawOp> {
    Seq::new(n as nat, |i: int| list_ops(lists, i)).flatten()
}

/// The steps that draw a frame: those of its lists in order, and within a list
/// those of its batches in order.  Drawing starts with no texture bound, so
/// that the first batch that draws binds its texture, and each later one binds
/// its texture only when it is another than that of the batch that drew before
/// it.
pub open spec fn draw_ops(lists: Seq<DrawList>) -> Seq<DrawOp> {
    draw_ops_upto(lists, lists.len() as int)
}

/// What one more batch adds to the count of drawn indices, and that a prefix of
/// the batches draws no more than all of them.
pub proof fn lemma_elements_step(cmds: Seq<DrawCmd>, j: int)
    requires
        0 <= j < cmds.len(),
    ensures
        elements_of(cmds.take(j + 1)) == elements_of(cmds.take(j)) + count_of(cmds[j]),
        elements_of(cmds.take(j + 1)) <= elements_of(cmds),
{
    let counts = cmds.map_values(|c: DrawCmd| count_of(c));
    assert(cmds.take(j).map_values(|c: DrawCmd| count_of(c)) =~= counts.take(j));
    assert(cmds.take(j + 1).map_values(|c: DrawCmd| count_of(c)) =~= counts.take(j + 1));
    lemma_sum_take(counts, j);
    lemma_sum_take(counts, j + 1);
}

/// What one more list adds to the totals, and that a prefix of the lists holds
/// no more than all of them.
pub proof fn lemma_lists_step(lists: Seq<DrawList>, i: int)
    requires
        0 <= i < lists.len(),
    ensures
        total_vertices(lists.take(i + 1)) == total_vertices(lists.take(i)) + lists[i].vtx_count,
        total_indices(lists.take(i + 1)) == total_indices(lists.take(i)) + lists[i].idx_count,
        total_elements(lists.take(i + 1)) == total_elements(lists.take(i)) + elements_of(
            lists[i].commands@,
        ),
        total_vertices(lists.take(i + 1)) <= total_vertices(lists),
        total_indices(lists.take(i + 1)) <= total_indices(lists),
        total_elements(lists.take(i + 1)) <= total_elements(lists),
{
    let vs = lists.map_values(|l: DrawList| l.vtx_count as nat);
    let is = lists.map_values(|l: DrawList| l.idx_count as nat);
    let es = lists.map_values(|l: DrawList| elements_of(l.commands@));
    assert(lists.take(i).map_values(|l: DrawList| l.vtx_count as nat) =~= vs.take(i));
    assert(lists.take(i + 1).map_values(|l: DrawList| l.vtx_count as nat) =~= vs.take(i + 1));
    assert(lists.take(i).map_values(|l: DrawList| l.idx_count as nat) =~= is.take(i));
    assert(lists.take(i + 1).map_values(|l: DrawList| l.idx_count as nat) =~= is.take(i + 1));
    assert(lists.take(i).map_values(|l: DrawList| elements_of(l.commands@)) =~= es.take(i));
    assert(lists.take(i + 1).map_values(|l: DrawList| elements_of(l.commands@)) =~= es.take(i + 1));
    lemma_sum_take(vs, i);
    lemma_sum_take(is, i);
    lemma_sum_take(es, i);
    lemma_sum_take(vs, i + 1);
    lemma_sum_take(is, i + 1);
    lemma_sum_take(es, i + 1);
}

/// The texture that is bound after one more batch.
pub proof fn lemma_texture_step(cmds: Seq<DrawCmd>, j: int, before: Option<usize>)
    requires
        0 <= j < cmds.len(),
    ensures
        texture_after(cmds.take(j + 1), before) == (match cmds[j] {
            DrawCmd::Elements { texture_id, .. } => Some(texture_id),
            _ => texture_after(cmds.take(j), before),
        }),
{
    assert(cmds.take(j + 1).drop_last() =~= cmds.take(j));
}

/// The texture that is bound after one more list.
pub proof fn lemma_texture_lists_step(lists: Seq<DrawList>, i: int)
    requires
        0 <= i < lists.len(),
    ensures
        texture_after_lists(lists.take(i + 1)) == texture_after(
            lists[i].commands@,
            texture_after_lists(lists.take(i)),
        ),
{
    assert(lists.take(i + 1).drop_last() =~= lists.take(i));
}

/// The steps for one more batch follow those for the batches before it.
pub proof fn lemma_list_ops_step(lists: Seq<DrawList>, i: int, n: int)
    requires
        0 <= n,
    ensures
        list_ops_upto(lists, i, n + 1) == list_ops_upto(lists, i, n) + batch_ops(lists, i, n),
        list_ops_upto(lists, i, 0) == Seq::<DrawOp>::empty(),
{
    let f = |j: int| batch_ops(lists, i, j);
    assert(Seq::new((n + 1) as nat, f) =~= Seq::new(n as nat, f).push(f(n)));
    Seq::new(n as nat, f).lemma_flatten_push(f(n));
}

/// The steps for one more list follow those for the lists before it.
pub proof fn lemma_draw_ops_step(lists: Seq<DrawList>, n: int)
    requires
        0 <= n,
    ensures
        draw_ops_upto(lists, n + 1) == draw_ops_upto(lists, n) + list_ops(lists, n),
        draw_ops_upto(lists, 0) == Seq::<DrawOp>::empty(),
{
    let f = |i: int| list_ops(lists, i);
    assert(Seq::new((n + 1) as nat, f) =~= Seq::new(n as nat, f).push(f(n)));
    Seq::new(n as nat, f).lemma_flatten_push(f(n));
}

/// The first batch of a frame that draws binds its texture.
pub proof fn lemma_first_draw_binds(lists: Seq<DrawList>, i: int, j: int)
    requires
        0 <= i < lists.len(),
        0 <= j < lists[i].commands@.len(),
        lists[i].commands@[j] is Elements,
        texture_before(lists, i, j) is None,
    ensures
        batch_ops(lists, i, j)[0] == (DrawOp::BindTexture {
            texture_id: lists[i].commands@[j]->texture_id,
        }),
{
}

/// Of two batches of a list that draw one after the other with the same
/// texture, the second binds nothing: the texture is bound once for both.
pub proof fn lemma_same_texture_is_bound_once(lists: Seq<DrawList>, i: int, j: int)
    requires
        0 <= i < lists.len(),
        0 < j < lists[i].commands@.len(),
        lists[i].commands@[j - 1] is Elements,
        lists[i].commands@[j] is Elements,
        lists[i].commands@[j - 1]->texture_id == lists[i].commands@[j]->texture_id,
    ensures
        forall|k: int|
            0 <= k < batch_ops(lists, i, j).len() ==> !(#[trigger] batch_ops(lists, i, j)[k]
                is BindTexture),
{
    lemma_texture_step(lists[i].commands@, j - 1, texture_after_lists(lists.take(i)));
}

/// The frame to render.
#[derive(Debug)]
pub struct DrawData {
    display_width: u32,
    display_height: u32,
    total_vtx_count: usize,
    total_idx_count: usize,
    draw_lists: Vec<DrawList>,
}

impl DrawData {
    #[verifier::type_invariant]
    spec fn consistent(&self) -> bool {
        &&& fits(self.draw_lists@)
        &&& self.total_vtx_count == total_vertices(self.draw_lists@)
        &&& self.total_idx_count == total_indices(self.draw_lists@)
    }

    /// The draw lists of the frame, in drawing order.
    pub closed spec fn lists(&self) -> Seq<DrawList> {
        self.draw_lists@
    }

    /// Bit pattern of the float that is the display's width.
    pub closed spec fn width(&self) -> u32 {
        self.display_width
    }

    /// Bit pattern of the float that is the display's height.
    pub closed spec fn height(&self) -> u32 {
        self.display_height
    }

    /// There is nothing to draw on: the display is empty in width or in height.
    pub open spec fn is_empty(&self) -> bool {
        float_is_non_positive(self.width()) || float_is_non_positive(self.height())
    }

    /// Counts the indices that the batches `cmds` draw, as long as the count
    /// stays within `MAX_COUNT - before`.
    fn count_elements(cmds: &Vec<DrawCmd>, before: usize) -> (total: Option<usize>)
        requires
            before <= MAX_COUNT,
        ensures
            match total {
                Some(n) => n == elements_of(cmds@) && before + n <= MAX_COUNT,
                None => before + elements_of(cmds@) > MAX_COUNT,
            },
    {
        let ghost counts = cmds@.map_values(|c: DrawCmd| count_of(c));
        let mut sum: usize = 0;
        let mut j: usize = 0;
        while j < cmds.len()
            invariant
                j <= cmds.len(),
                counts == cmds@.map_values(|c: DrawCmd| count_of(c)),
                sum == sum_of(counts.take(j as int)),
                before + sum <= MAX_COUNT,
                before <= MAX_COUNT,
            decreases cmds.len() - j,
        {
            proof {
                lemma_sum_take(counts, j as int);
                lemma_sum_take(counts, j as int + 1);
            }
            match cmds[j] {
                DrawCmd::Elements { count, .. } => {
                    if count > MAX_COUNT - before - sum {
                        return None;
                    }
                    sum = sum + count;
                },
                _ => {},
            }
            j = j + 1;
        }
        proof {
            assert(counts.take(j as int) =~= counts);
        }
        Some(sum)
    }

    /// Puts a frame together from the display size, given as the bit patterns
    /// of two floats, and the draw lists.  A frame with more than `MAX_COUNT`
    /// vertices, indices or drawn indices is refused.
    pub fn new(display_width: u32, display_height: u32, draw_lists: Vec<DrawList>) -> (data: Option<
        DrawData,
    >)
        ensures
            data is Some <==> fits(draw_lists@),
            data matches Some(d) ==> {
                &&& d.lists() == draw_lists@
                &&& d.width() == display_width
                &&& d.height() == display_height
            },
    {
        let ghost vs = draw_lists@.map_values(|l: DrawList| l.vtx_count as nat);
        let ghost is = draw_lists@.map_values(|l: DrawList| l.idx_count as nat);
        let ghost es = draw_lists@.map_values(|l: DrawList| elements_of(l.commands@));
        let mut vertices: usize = 0;
        let mut indices: usize = 0;
        let mut elements: usize = 0;
        let mut i: usize = 0;
        while i < draw_lists.len()
            invariant
                i <= draw_lists.len(),
                vs == draw_lists@.map_values(|l: DrawList| l.vtx_count as nat),
                is == draw_lists@.map_values(|l: DrawList| l.idx_count as nat),
                es == draw_lists@.map_values(|l: DrawList| elements_of(l.commands@)),
                vertices == sum_of(vs.take(i as int)),
                indices == sum_of(is.take(i as int)),
                elements == sum_of(es.take(i as int)),
                vertices <= MAX_COUNT,
                indices <= MAX_COUNT,
                elements <= MAX_COUNT,
            decreases draw_lists.len() - i,
        {
            proof {
                lemma_sum_take(vs, i as int);
                lemma_sum_take(is, i as int);
                lemma_sum_take(es, i as int);
                lemma_sum_take(vs, i as int + 1);
                lemma_sum_take(is, i as int + 1);
                lemma_sum_take(es, i as int + 1);
            }
            let list = &draw_lists[i];
            if list.vtx_count > MAX_COUNT - vertices || list.idx_count > MAX_COUNT - indices {
                return None;
            }
            match Self::count_elements(&list.commands, elements) {
                Some(n) => {
                    elements = elements + n;
                },
                None => {
                    return None;
                },
            }
            vertices = vertices + list.vtx_count;
            indices = indices + list.idx_count;
            i = i + 1;
        }
        proof {
            assert(vs.take(i as int) =~= vs);
            assert(is.take(i as int) =~= is);
            assert(es.take(i as int) =~= es);
        }
        Some(
            DrawData {
                display_width,
                display_height,
                total_vtx_count: vertices,
                total_idx_count: indices,
                draw_lists,
            },
        )
    }

    /// The number of vertices in the frame.
    pub fn total_vtx_count(&self) -> (n: usize)
        ensures
            n == total_vertices(self.lists()),
            n <= MAX_COUNT,
    {
        proof {
            use_type_invariant(self);
        }
        self.total_vtx_count
    }

    /// The number of indices in the frame.
    pub fn total_idx_count(&self) -> (n: usize)
        ensures
            n == total_indices(self.lists()),
            n <= MAX_COUNT,
    {
        proof {
            use_type_invariant(self);
        }
        self.total_idx_count
    }

    /// The draw lists of the frame, in drawing order.
    pub fn draw_lists(&self) -> (lists: &Vec<DrawList>)
        ensures
            lists@ == self.lists(),
            fits(lists@),
    {
        proof {
            use_type_invariant(self);
        }
        &self.draw_lists
    }

    /// Bit patterns of the floats that are the display's width and height.
    pub fn display_size(&self) -> (size: (u32, u32))
        ensures
            size.0 == self.width(),
            size.1 == self.height(),
    {
        (self.display_width, self.display_height)
    }

    /// Whether there is nothing to draw on.
    pub fn is_display_empty(&self) -> (empty: bool)
        ensures
            empty == self.is_empty(),
    {
        is_non_positive(self.display_width) || is_non_positive(self.display_height)
    }
    /// The steps that draw the frame.
    pub fn plan(&self) -> (ops: Vec<DrawOp>)
        ensures
            ops@ == draw_ops(self.lists()),
    {
        let lists = self.draw_lists();
        let mut ops: Vec<DrawOp> = Vec::new();
        let mut last_tex: Option<usize> = None;
        let mut index_offset: usize = 0;
        let mut vertex_offset: usize = 0;
        let mut i: usize = 0;
        proof {
            lemma_draw_ops_step(lists@, 0);
        }
        while i < lists.len()
            invariant
                i <= lists.len(),
                fits(lists@),
                ops@ == draw_ops_upto(lists@, i as int),
                last_tex == texture_after_lists(lists@.take(i as int)),
                index_offset == total_elements(lists@.take(i as int)),
                vertex_offset == total_vertices(lists@.take(i as int)),
            decreases lists.len() - i,
        {
            let list = &lists[i];
            let ghost before = ops@;
            let mut j: usize = 0;
            proof {
                lemma_lists_step(lists@, i as int);
                lemma_list_ops_step(lists@, i as int, 0);
            }
            while j < list.commands.len()
                invariant
                    i < lists.len(),
                    j <= list.commands.len(),
                    *list == lists@[i as int],
                    fits(lists@),
                    ops@ == before + list_ops_upto(lists@, i as int, j as int),
                    last_tex == texture_before(lists@, i as int, j as int),
                    index_offset == elements_before(lists@, i as int, j as int),
                    vertex_offset == vertices_before(lists@, i as int),
                    total_elements(lists@.take(i as int)) + elements_of(list.commands@)
                        <= total_elements(lists@),
                    vertex_offset <= MAX_COUNT,
                decreases list.commands.len() - j,
            {
                proof {
                    lemma_elements_step(list.commands@, j as int);
                    lemma_texture_step(
                        list.commands@,
                        j as int,
                        texture_after_lists(lists@.take(i as int)),
                    );
                    lemma_list_ops_step(lists@, i as int, j as int);
                }
                match list.commands[j] {
                    DrawCmd::Elements { count, clip_rect, texture_id } => {
                        if last_tex != Some(texture_id) {
                            ops.push(DrawOp::BindTexture { texture_id });
                            last_tex = Some(texture_id);
                        }
                        ops.push(DrawOp::SetScissor { rect: clip_rect });
                        ops.push(
                            DrawOp::DrawIndexed {
                                index_count: count as u32,
                                start_index: index_offset as u32,
                                base_vertex: vertex_offset as i32,
                            },
                        );
                        index_offset = index_offset + count;
                    },
                    DrawCmd::ResetRenderState => {
                        ops.push(DrawOp::ResetRenderState);
                    },
                    DrawCmd::RawCallback => {
                        ops.push(DrawOp::RawCallback { list: i, command: j });
                    },
                }
                j = j + 1;
            }
            proof {
                assert(list.commands@.take(j as int) =~= list.commands@);
                lemma_texture_lists_step(lists@, i as int);
                lemma_draw_ops_step(lists@, i as int);
            }
            vertex_offset = vertex_offset + list.vtx_count;
            i = i + 1;
        }
        ops
    }
}

} // verus!
