use vstd::prelude::*;

verus! {

/// The callback of a UI draw command.
#[derive(Clone, Copy, Debug, PartialEq, Eq, Structural)]
pub enum DrawCallback {
    /// An ordinary draw command.
    NoCallback,
    /// The UI library's marker asking the renderer to set its render state up again.
    ResetRenderState,
    /// A callback of the user's.
    User,
}

/// What the renderer reads of one draw command. `clipped_out` says whether its clip
/// rectangle, moved by the display position, is empty.
#[derive(Clone, Copy, Debug, PartialEq, Eq, Structural)]
pub struct DrawCmdInfo {
    pub callback: DrawCallback,
    pub clipped_out: bool,
    pub texture: u64,
    pub vtx_offset: u32,
    pub idx_offset: u32,
    pub elem_count: u32,
}

/// What the renderer reads of one draw list: the sizes of its buffers and its commands.
pub struct DrawListInfo {
    pub vtx_buffer_size: u32,
    pub idx_buffer_size: u32,
    pub cmds: Vec<DrawCmdInfo>,
}

/// What the renderer does for one draw command.
#[derive(Clone, Copy, Debug, PartialEq, Eq, Structural)]
pub enum DrawAction {
    SetupRenderState,
    /// Runs the user's callback of command `cmd` of list `list`.
    UserCallback { list: usize, cmd: usize },
    /// Sets the clip rectangle and the texture, and draws the command's triangles.
    Draw { list: usize, cmd: usize, texture: u64, base_vertex: u32, num_vertices: u32, start_index: u32, prim_count: u32 },
}

/// The vertices of the lists before list `n`.
pub open spec fn vtx_total(lists: Seq<DrawListInfo>, n: int) -> int
    decreases n,
{
    if n <= 0 {
        0
    } else {
        vtx_total(lists, n - 1) + lists[n - 1].vtx_buffer_size
    }
}

/// The indices of the lists before list `n`.
pub open spec fn idx_total(lists: Seq<DrawListInfo>, n: int) -> int
    decreases n,
{
    if n <= 0 {
        0
    } else {
        idx_total(lists, n - 1) + lists[n - 1].idx_buffer_size
    }
}

/// What the renderer does for one command of a list whose vertices and indices start at
/// `vtx_base` and `idx_base` of the shared buffers.
pub open spec fn cmd_action(c: DrawCmdInfo, list: int, cmd: int, vtx_base: int, idx_base: int, vtx_size: u32) -> Option<DrawAction> {
    match c.callback {
        DrawCallback::ResetRenderState => Some(DrawAction::SetupRenderState),
        DrawCallback::User => Some(DrawAction::UserCallback { list: list as usize, cmd: cmd as usize }),
        DrawCallback::NoCallback => if c.clipped_out {
            None
        } else {
            Some(
                DrawAction::Draw {
                    list: list as usize,
                    cmd: cmd as usize,
                    texture: c.texture,
                    base_vertex: (c.vtx_offset + vtx_base) as u32,
                    num_vertices: vtx_size,
                    start_index: (c.idx_offset + idx_base) as u32,
                    prim_count: c.elem_count / 3,
                },
            )
        },
    }
}

/// The actions for the first `n` commands of list `list`.
pub open spec fn cmd_actions(cmds: Seq<DrawCmdInfo>, n: int, list: int, vtx_base: int, idx_base: int, vtx_size: u32) -> Seq<DrawAction>
    decreases n,
{
    if n <= 0 {
        Seq::empty()
    } else {
        cmd_actions(cmds, n - 1, list, vtx_base, idx_base, vtx_size) + match cmd_action(
            cmds[n - 1],
            list,
            n - 1,
            vtx_base,
            idx_base,
            vtx_size,
        ) {
            Some(a) => seq![a],
            None => Seq::empty(),
        }
    }
}

/// The actions for the commands of the first `n` lists, in order.
pub open spec fn draw_actions(lists: Seq<DrawListInfo>, n: int) -> Seq<DrawAction>
    decreases n,
{
    if n <= 0 {
        Seq::empty()
    } else {
        let l = lists[n - 1];
        draw_actions(lists, n - 1) + cmd_actions(
            l.cmds@,
            l.cmds@.len() as int,
            n - 1,
            vtx_total(lists, n - 1),
            idx_total(lists, n - 1),
            l.vtx_buffer_size,
        )
    }
}

/// Whether the offsets the renderer adds up stay within `u32`.
pub open spec fn offsets_fit(lists: Seq<DrawListInfo>) -> bool {
    &&& vtx_total(lists, lists.len() as int) <= u32::MAX
    &&& idx_total(lists, lists.len() as int) <= u32::MAX
    &&& forall|i: int, j: int|
        0 <= i < lists.len() && 0 <= j < lists[i].cmds@.len() ==> (#[trigger] lists[i].cmds@[j]).vtx_offset
            + vtx_total(lists, i) <= u32::MAX && lists[i].cmds@[j].idx_offset + idx_total(lists, i) <= u32::MAX
}

proof fn lemma_totals_grow(lists: Seq<DrawListInfo>, i: int, n: int)
    requires
        0 <= i <= n <= lists.len(),
    ensures
        vtx_total(lists, i) <= vtx_total(lists, n),
        idx_total(lists, i) <= idx_total(lists, n),
    decreases n - i,
{
    if i < n {
        lemma_totals_grow(lists, i, n - 1);
    }
}


/// Whether the offsets the renderer adds up stay within `u32`, checked.
pub fn offsets_fit_exec(lists: &Vec<DrawListInfo>) -> (b: bool)
    ensures
        b == offsets_fit(lists@),
{
    let mut vt: u64 = 0;
    let mut it: u64 = 0;
    let mut i: usize = 0;
    while i < lists.len()
        invariant
            i <= lists.len(),
            vt == vtx_total(lists@, i as int),
            it == idx_total(lists@, i as int),
            vt <= u32::MAX,
            it <= u32::MAX,
            forall|a: int, j: int|
                0 <= a < i && 0 <= j < lists@[a].cmds@.len() ==> (#[trigger] lists@[a].cmds@[j]).vtx_offset
                    + vtx_total(lists@, a) <= u32::MAX && lists@[a].cmds@[j].idx_offset + idx_total(lists@, a)
                    <= u32::MAX,
        decreases lists.len() - i,
    {
        let list = &lists[i];
        let mut j: usize = 0;
        while j < list.cmds.len()
            invariant
                i < lists.len(),
                *list == lists@[i as int],
                j <= list.cmds.len(),
                vt == vtx_total(lists@, i as int),
                it == idx_total(lists@, i as int),
                vt <= u32::MAX,
                it <= u32::MAX,
                forall|a: int, k: int|
                    0 <= a < i && 0 <= k < lists@[a].cmds@.len() ==> (#[trigger] lists@[a].cmds@[k]).vtx_offset
                        + vtx_total(lists@, a) <= u32::MAX && lists@[a].cmds@[k].idx_offset + idx_total(lists@, a)
                        <= u32::MAX,
                forall|k: int|
                    0 <= k < j ==> (#[trigger] lists@[i as int].cmds@[k]).vtx_offset + vtx_total(lists@, i as int)
                        <= u32::MAX && lists@[i as int].cmds@[k].idx_offset + idx_total(lists@, i as int) <= u32::MAX,
            decreases list.cmds.len() - j,
        {
            let c = list.cmds[j];
            if c.vtx_offset as u64 + vt > u32::MAX as u64 || c.idx_offset as u64 + it > u32::MAX as u64 {
                assert(lists@[i as int].cmds@[j as int] == c);
                return false;
            }
            j = j + 1;
        }
        let nv: u64 = vt + list.vtx_buffer_size as u64;
        let ni: u64 = it + list.idx_buffer_size as u64;
        proof {
            lemma_totals_grow(lists@, i + 1, lists@.len() as int);
        }
        if nv > u32::MAX as u64 || ni > u32::MAX as u64 {
            return false;
        }
        vt = nv;
        it = ni;
        i = i + 1;
    }
    true
}

/// What the renderer does for the draw lists of a frame, in order: vertices and indices of
/// the lists lie one after the other in shared buffers, so each list's commands are drawn
/// from where the previous lists end.
pub fn draw_plan(lists: &Vec<DrawListInfo>) -> (actions: Vec<DrawAction>)
    requires
        offsets_fit(lists@),
    ensures
        actions@ == draw_actions(lists@, lists@.len() as int),
{
    let mut actions: Vec<DrawAction> = Vec::new();
    let mut vertex_offset: u32 = 0;
    let mut index_offset: u32 = 0;
    let mut i: usize = 0;
    while i < lists.len()
        invariant
            i <= lists.len(),
            offsets_fit(lists@),
            vertex_offset == vtx_total(lists@, i as int),
            index_offset == idx_total(lists@, i as int),
            actions@ == draw_actions(lists@, i as int),
        decreases lists.len() - i,
    {
        let list = &lists[i];
        let ghost start = actions@;
        let mut j: usize = 0;
        while j < list.cmds.len()
            invariant
                i < lists.len(),
                *list == lists@[i as int],
                j <= list.cmds.len(),
                offsets_fit(lists@),
                vertex_offset == vtx_total(lists@, i as int),
                index_offset == idx_total(lists@, i as int),
                actions@ == start + cmd_actions(list.cmds@, j as int, i as int, vertex_offset as int, index_offset as int, list.vtx_buffer_size),
            decreases list.cmds.len() - j,
        {
            let c = list.cmds[j];
            assert(c == lists@[i as int].cmds@[j as int]);
            match c.callback {
                DrawCallback::ResetRenderState => actions.push(DrawAction::SetupRenderState),
                DrawCallback::User => actions.push(DrawAction::UserCallback { list: i, cmd: j }),
                DrawCallback::NoCallback => {
                    if !c.clipped_out {
                        actions.push(
                            DrawAction::Draw {
                                list: i,
                                cmd: j,
                                texture: c.texture,
                                base_vertex: c.vtx_offset + vertex_offset,
                                num_vertices: list.vtx_buffer_size,
                                start_index: c.idx_offset + index_offset,
                                prim_count: c.elem_count / 3,
                            },
                        );
                    }
                },
            }
            j = j + 1;
        }
        proof {
            lemma_totals_grow(lists@, i + 1, lists@.len() as int);
        }
        index_offset = index_offset + list.idx_buffer_size;
        vertex_offset = vertex_offset + list.vtx_buffer_size;
        i = i + 1;
    }
    actions
}

} // verus!
