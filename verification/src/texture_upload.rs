use vstd::prelude::*;

verus! {

/// Where a texture of the user interface stands between it and the renderer.
#[derive(Clone, Copy, Debug, PartialEq, Eq, Structural)]
pub enum TextureStatus {
    /// Up to date on the device.
    Ready,
    Destroyed,
    WantCreate,
    WantUpdates,
    WantDestroy,
}

/// Pixel format of a texture of the user interface.
#[derive(Clone, Copy, Debug, PartialEq, Eq, Structural)]
pub enum TextureFormat {
    RGBA32,
    Alpha8,
}

/// A rectangle of texels.
#[derive(Clone, Copy, Debug, PartialEq, Eq, Structural)]
pub struct TextureRect {
    pub x: u16,
    pub y: u16,
    pub w: u16,
    pub h: u16,
}

/// What the renderer reads of a texture of the user interface. `tex_id` 0 means that no
/// device texture backs it.
pub struct TextureData {
    pub status: TextureStatus,
    pub tex_id: u64,
    pub format: TextureFormat,
    pub width: i32,
    pub height: i32,
    pub bytes_per_pixel: i32,
    pub pixels: Vec<u8>,
    pub update_rect: TextureRect,
    pub updates: Vec<TextureRect>,
}

/// What the renderer does with a texture.
#[derive(Clone, Copy, Debug, PartialEq, Eq, Structural)]
pub enum TextureAction {
    /// Create a dynamic device texture of this size and copy every texel into it.
    Create { width: i32, height: i32 },
    /// Lock this rectangle of the device texture (left, top, right, bottom) and copy the
    /// updated regions into it.
    Update { left: i32, top: i32, right: i32, bottom: i32 },
    /// Release the device texture with this id.
    Destroy { tex_id: u64 },
    /// Nothing to do.
    Nothing,
}

/// What the renderer does with a texture in each status.
pub open spec fn spec_texture_action(status: TextureStatus, tex_id: u64, width: i32, height: i32, update_rect: TextureRect) -> TextureAction {
    match status {
        TextureStatus::WantCreate => TextureAction::Create { width, height },
        TextureStatus::WantUpdates => TextureAction::Update {
            left: update_rect.x as i32,
            top: update_rect.y as i32,
            right: (update_rect.x + update_rect.w) as i32,
            bottom: (update_rect.y + update_rect.h) as i32,
        },
        TextureStatus::WantDestroy => if tex_id == 0 {
            TextureAction::Nothing
        } else {
            TextureAction::Destroy { tex_id }
        },
        TextureStatus::Ready | TextureStatus::Destroyed => TextureAction::Nothing,
    }
}

/// The status a texture has once its action is done.
pub open spec fn spec_status_after(status: TextureStatus, tex_id: u64) -> TextureStatus {
    match status {
        TextureStatus::WantCreate | TextureStatus::WantUpdates => TextureStatus::Ready,
        TextureStatus::WantDestroy => if tex_id == 0 {
            TextureStatus::WantDestroy
        } else {
            TextureStatus::Destroyed
        },
        _ => status,
    }
}

impl TextureData {
    /// What to do with the texture. A texture to create must not have a device texture yet
    /// and must hold RGBA texels.
    pub fn action(&self) -> (a: TextureAction)
        requires
            self.status == TextureStatus::WantCreate ==> self.tex_id == 0 && self.format == TextureFormat::RGBA32,
        ensures
            a == spec_texture_action(self.status, self.tex_id, self.width, self.height, self.update_rect),
    {
        match self.status {
            TextureStatus::WantCreate => TextureAction::Create { width: self.width, height: self.height },
            TextureStatus::WantUpdates => {
                let r = self.update_rect;
                let right: u32 = r.x as u32 + r.w as u32;
                let bottom: u32 = r.y as u32 + r.h as u32;
                TextureAction::Update { left: r.x as i32, top: r.y as i32, right: right as i32, bottom: bottom as i32 }
            },
            TextureStatus::WantDestroy => if self.tex_id == 0 {
                TextureAction::Nothing
            } else {
                TextureAction::Destroy { tex_id: self.tex_id }
            },
            TextureStatus::Ready | TextureStatus::Destroyed => TextureAction::Nothing,
        }
    }

    /// Records that the action is done: a created texture takes the new device texture's
    /// id, a destroyed one gives its id up.
    pub fn finish(&mut self, created_id: u64)
        ensures
            final(self).status == spec_status_after(old(self).status, old(self).tex_id),
            final(self).tex_id == match old(self).status {
                TextureStatus::WantCreate => created_id,
                TextureStatus::WantDestroy => 0,
                _ => old(self).tex_id,
            },
            final(self).format == old(self).format,
            final(self).width == old(self).width,
            final(self).height == old(self).height,
            final(self).bytes_per_pixel == old(self).bytes_per_pixel,
            final(self).pixels@ == old(self).pixels@,
            final(self).update_rect == old(self).update_rect,
            final(self).updates@ == old(self).updates@,
    {
        match self.status {
            TextureStatus::WantCreate => {
                self.tex_id = created_id;
                self.status = TextureStatus::Ready;
            },
            TextureStatus::WantUpdates => {
                self.status = TextureStatus::Ready;
            },
            TextureStatus::WantDestroy => if self.tex_id != 0 {
                self.tex_id = 0;
                self.status = TextureStatus::Destroyed;
            },
            TextureStatus::Ready | TextureStatus::Destroyed => {},
        }
    }
}

/// `bytes` written over `dst` from position `at` on.
pub open spec fn splice(dst: Seq<u8>, at: int, bytes: Seq<u8>) -> Seq<u8> {
    dst.subrange(0, at) + bytes + dst.subrange(at + bytes.len(), dst.len() as int)
}

/// `dst` after the first `rows` rows of `row_len` bytes have been copied from `src`
/// (rows `src_pitch` apart from `src_offset`) to rows `dst_pitch` apart from `dst_offset`.
pub open spec fn copied_rows(
    dst: Seq<u8>,
    src: Seq<u8>,
    src_offset: int,
    src_pitch: int,
    dst_offset: int,
    dst_pitch: int,
    row_len: int,
    rows: nat,
) -> Seq<u8>
    decreases rows,
{
    if rows == 0 {
        dst
    } else {
        let r = rows - 1;
        splice(
            copied_rows(dst, src, src_offset, src_pitch, dst_offset, dst_pitch, row_len, r as nat),
            dst_offset + r * dst_pitch,
            src.subrange(src_offset + r * src_pitch, src_offset + r * src_pitch + row_len),
        )
    }
}

/// Copies `h` rows of `w` four-byte texels from `src` to `dst`; the rows of `src` lie
/// `src_pitch` bytes apart from `src_offset` on, those of `dst` `dst_pitch` bytes apart from
/// `dst_offset` on.
pub fn copy_texture_region(
    src: &[u8],
    src_offset: usize,
    src_pitch: usize,
    dst: &mut Vec<u8>,
    dst_offset: usize,
    dst_pitch: usize,
    w: usize,
    h: usize,
)
    requires
        h > 0 ==> src_offset + (h - 1) * src_pitch + 4 * w <= src.len(),
        h > 0 ==> dst_offset + (h - 1) * dst_pitch + 4 * w <= old(dst).len(),
    ensures
        final(dst)@ == copied_rows(
            old(dst)@,
            src@,
            src_offset as int,
            src_pitch as int,
            dst_offset as int,
            dst_pitch as int,
            4 * w,
            h as nat,
        ),
        final(dst).len() == old(dst).len(),
{
    if h == 0 {
        return;
    }
    let ghost so = src_offset as int;
    let ghost sp = src_pitch as int;
    let ghost d_o = dst_offset as int;
    let ghost dp = dst_pitch as int;
    let row_len: usize = 4 * w;
    let mut y: usize = 0;
    let mut s_row: usize = src_offset;
    let mut d_row: usize = dst_offset;
    while y < h
        invariant
            h > 0,
            row_len == 4 * w,
            so + (h - 1) * sp + row_len <= src.len(),
            d_o + (h - 1) * dp + row_len <= old(dst).len(),
            so == src_offset,
            sp == src_pitch,
            d_o == dst_offset,
            dp == dst_pitch,
            y <= h,
            y < h ==> s_row == so + y * sp,
            y < h ==> d_row == d_o + y * dp,
            dst.len() == old(dst).len(),
            dst@ == copied_rows(old(dst)@, src@, so, sp, d_o, dp, row_len as int, y as nat),
        decreases h - y,
    {
        proof {
            assert(y * sp <= (h - 1) * sp) by (nonlinear_arith)
                requires
                    y <= h - 1,
                    sp >= 0,
            ;
            assert(y * dp <= (h - 1) * dp) by (nonlinear_arith)
                requires
                    y <= h - 1,
                    dp >= 0,
            ;
        }
        let ghost before = dst@;
        let mut x: usize = 0;
        while x < row_len
            invariant
                x <= row_len,
                s_row + row_len <= src.len(),
                d_row + row_len <= before.len(),
                dst.len() == before.len(),
                dst@ == splice(before, d_row as int, src@.subrange(s_row as int, s_row + x)),
            decreases row_len - x,
        {
            let v = src[s_row + x];
            dst.set(d_row + x, v);
            assert(dst@ =~= splice(before, d_row as int, src@.subrange(s_row as int, s_row + x + 1)));
            x = x + 1;
        }
        y = y + 1;
        if y < h {
            proof {
                assert(y * sp == (y - 1) * sp + sp) by (nonlinear_arith);
                assert(y * dp == (y - 1) * dp + dp) by (nonlinear_arith);
                assert(y * sp <= (h - 1) * sp) by (nonlinear_arith)
                    requires
                        y <= h - 1,
                        sp >= 0,
                ;
                assert(y * dp <= (h - 1) * dp) by (nonlinear_arith)
                    requires
                        y <= h - 1,
                        dp >= 0,
                ;
            }
            s_row = s_row + src_pitch;
            d_row = d_row + dst_pitch;
        }
    }
}


/// Whether position `k` lies in one of the first `rows` rows of `row_len` bytes that start
/// at `offset` and lie `pitch` bytes apart.
pub open spec fn in_rows(k: int, offset: int, pitch: int, row_len: int, rows: nat) -> bool {
    exists|r: int| 0 <= r < rows && #[trigger] (offset + r * pitch) <= k < offset + r * pitch + row_len
}

/// Copying rows writes nothing outside them and keeps the buffer's length.
pub proof fn law_copy_touches_only_its_rows(
    dst: Seq<u8>,
    src: Seq<u8>,
    src_offset: int,
    src_pitch: int,
    dst_offset: int,
    dst_pitch: int,
    row_len: int,
    rows: nat,
    k: int,
)
    requires
        0 <= src_offset,
        0 <= dst_offset,
        0 <= src_pitch,
        0 <= dst_pitch,
        0 <= row_len,
        rows > 0 ==> src_offset + (rows - 1) * src_pitch + row_len <= src.len(),
        rows > 0 ==> dst_offset + (rows - 1) * dst_pitch + row_len <= dst.len(),
        0 <= k < dst.len(),
        !in_rows(k, dst_offset, dst_pitch, row_len, rows),
    ensures
        copied_rows(dst, src, src_offset, src_pitch, dst_offset, dst_pitch, row_len, rows).len() == dst.len(),
        copied_rows(dst, src, src_offset, src_pitch, dst_offset, dst_pitch, row_len, rows)[k] == dst[k],
    decreases rows,
{
    if rows > 0 {
        let r = rows - 1;
        if r > 0 {
            assert((r - 1) * src_pitch <= r * src_pitch) by (nonlinear_arith)
                requires
                    r >= 1,
                    src_pitch >= 0,
            ;
            assert((r - 1) * dst_pitch <= r * dst_pitch) by (nonlinear_arith)
                requires
                    r >= 1,
                    dst_pitch >= 0,
            ;
        }
        assert(!in_rows(k, dst_offset, dst_pitch, row_len, r as nat)) by {
            if in_rows(k, dst_offset, dst_pitch, row_len, r as nat) {
                let w = choose|w: int| 0 <= w < r && #[trigger] (dst_offset + w * dst_pitch) <= k < dst_offset + w * dst_pitch + row_len;
                assert(0 <= w < rows && dst_offset + w * dst_pitch <= k < dst_offset + w * dst_pitch + row_len);
            }
        }
        law_copy_touches_only_its_rows(dst, src, src_offset, src_pitch, dst_offset, dst_pitch, row_len, r as nat, k);
        assert(0 <= r * dst_pitch) by (nonlinear_arith)
            requires
                r >= 0,
                dst_pitch >= 0,
        ;
        assert(0 <= r * src_pitch) by (nonlinear_arith)
            requires
                r >= 0,
                src_pitch >= 0,
        ;
        let at = dst_offset + r * dst_pitch;
        assert(!(at <= k < at + row_len));
    }
}

proof fn lemma_copied_rows_len(
    dst: Seq<u8>,
    src: Seq<u8>,
    src_offset: int,
    src_pitch: int,
    dst_offset: int,
    dst_pitch: int,
    row_len: int,
    rows: nat,
)
    requires
        0 <= src_offset,
        0 <= dst_offset,
        0 <= src_pitch,
        0 <= dst_pitch,
        0 <= row_len,
        rows > 0 ==> src_offset + (rows - 1) * src_pitch + row_len <= src.len(),
        rows > 0 ==> dst_offset + (rows - 1) * dst_pitch + row_len <= dst.len(),
    ensures
        copied_rows(dst, src, src_offset, src_pitch, dst_offset, dst_pitch, row_len, rows).len() == dst.len(),
    decreases rows,
{
    if rows > 0 {
        let r = rows - 1;
        if r > 0 {
            assert((r - 1) * src_pitch <= r * src_pitch) by (nonlinear_arith)
                requires
                    r >= 1,
                    src_pitch >= 0,
            ;
            assert((r - 1) * dst_pitch <= r * dst_pitch) by (nonlinear_arith)
                requires
                    r >= 1,
                    dst_pitch >= 0,
            ;
        }
        lemma_copied_rows_len(dst, src, src_offset, src_pitch, dst_offset, dst_pitch, row_len, r as nat);
        assert(0 <= r * dst_pitch) by (nonlinear_arith)
            requires
                r >= 0,
                dst_pitch >= 0,
        ;
        assert(0 <= r * src_pitch) by (nonlinear_arith)
            requires
                r >= 0,
                src_pitch >= 0,
        ;
    }
}

/// What a copy puts in place: when the destination rows do not overlap (they lie at least
/// a row's length apart), byte `x` of row `r` in the destination is byte `x` of row `r` in
/// the source.
pub proof fn law_copied_bytes_come_from_source(
    dst: Seq<u8>,
    src: Seq<u8>,
    src_offset: int,
    src_pitch: int,
    dst_offset: int,
    dst_pitch: int,
    row_len: int,
    rows: nat,
    r: int,
    x: int,
)
    requires
        0 <= src_offset,
        0 <= dst_offset,
        0 <= src_pitch,
        0 <= row_len <= dst_pitch,
        rows > 0 ==> src_offset + (rows - 1) * src_pitch + row_len <= src.len(),
        rows > 0 ==> dst_offset + (rows - 1) * dst_pitch + row_len <= dst.len(),
        0 <= r < rows,
        0 <= x < row_len,
    ensures
        copied_rows(dst, src, src_offset, src_pitch, dst_offset, dst_pitch, row_len, rows)[dst_offset + r * dst_pitch + x]
            == src[src_offset + r * src_pitch + x],
    decreases rows,
{
    let last = rows - 1;
    if last > 0 {
        assert((last - 1) * src_pitch <= last * src_pitch) by (nonlinear_arith)
            requires
                last >= 1,
                src_pitch >= 0,
        ;
        assert((last - 1) * dst_pitch <= last * dst_pitch) by (nonlinear_arith)
            requires
                last >= 1,
                dst_pitch >= 0,
        ;
    }
    lemma_copied_rows_len(dst, src, src_offset, src_pitch, dst_offset, dst_pitch, row_len, last as nat);
    let prev = copied_rows(dst, src, src_offset, src_pitch, dst_offset, dst_pitch, row_len, last as nat);
    assert(0 <= last * dst_pitch && 0 <= last * src_pitch) by (nonlinear_arith)
        requires
            last >= 0,
            dst_pitch >= 0,
            src_pitch >= 0,
    ;
    let at = dst_offset + last * dst_pitch;
    let bytes = src.subrange(src_offset + last * src_pitch, src_offset + last * src_pitch + row_len);
    assert(copied_rows(dst, src, src_offset, src_pitch, dst_offset, dst_pitch, row_len, rows) == splice(prev, at, bytes));
    if r == last {
        assert(splice(prev, at, bytes)[at + x] == bytes[x]);
    } else {
        law_copied_bytes_come_from_source(dst, src, src_offset, src_pitch, dst_offset, dst_pitch, row_len, last as nat, r, x);
        assert(r * dst_pitch + dst_pitch <= last * dst_pitch && 0 <= r * dst_pitch) by (nonlinear_arith)
            requires
                0 <= r,
                r + 1 <= last,
                dst_pitch >= 0,
        ;
        let k = dst_offset + r * dst_pitch + x;
        assert(k < at);
        assert(splice(prev, at, bytes)[k] == prev[k]);
    }
}

/// Whether position `k` lies in a destination row of one of the copies.
pub open spec fn in_copies(k: int, copies: Seq<RegionCopy>) -> bool {
    exists|i: int|
        0 <= i < copies.len() && in_rows(
            k,
            (#[trigger] copies[i]).dst_offset as int,
            copies[i].dst_pitch as int,
            4 * copies[i].w,
            copies[i].h as nat,
        )
}

/// Making the copies writes nothing outside their destination rows: an upload leaves
/// every other byte of the locked area as it was.
pub proof fn law_copies_touch_only_their_rows(dst: Seq<u8>, src: Seq<u8>, copies: Seq<RegionCopy>, k: int)
    requires
        forall|i: int| 0 <= i < copies.len() ==> copy_in_bounds(#[trigger] copies[i], src.len() as int, dst.len() as int),
        0 <= k < dst.len(),
        !in_copies(k, copies),
    ensures
        applied_copies(dst, src, copies).len() == dst.len(),
        applied_copies(dst, src, copies)[k] == dst[k],
    decreases copies.len(),
{
    if copies.len() > 0 {
        let prefix = copies.drop_last();
        assert forall|i: int| 0 <= i < prefix.len() implies copy_in_bounds(#[trigger] prefix[i], src.len() as int, dst.len() as int) by {
            assert(prefix[i] == copies[i]);
        }
        assert(!in_copies(k, prefix)) by {
            if in_copies(k, prefix) {
                let i = choose|i: int|
                    0 <= i < prefix.len() && in_rows(
                        k,
                        (#[trigger] prefix[i]).dst_offset as int,
                        prefix[i].dst_pitch as int,
                        4 * prefix[i].w,
                        prefix[i].h as nat,
                    );
                assert(copies[i] == prefix[i]);
            }
        }
        law_copies_touch_only_their_rows(dst, src, prefix, k);
        let c = copies.last();
        assert(copy_in_bounds(copies[copies.len() - 1], src.len() as int, dst.len() as int));
        assert(!in_rows(k, c.dst_offset as int, c.dst_pitch as int, 4 * c.w, c.h as nat));
        law_copy_touches_only_its_rows(
            applied_copies(dst, src, prefix),
            src,
            c.src_offset as int,
            c.src_pitch as int,
            c.dst_offset as int,
            c.dst_pitch as int,
            4 * c.w,
            c.h as nat,
            k,
        );
    }
}

/// ImGui's `ABGR` vertex colour as Direct3D's `ARGB`: red and blue change places.
pub open spec fn spec_col_to_dx9_argb(col: u32) -> u32 {
    (col & 0xFF00FF00u32) | ((col & 0xFF0000u32) >> 16u32) | ((col & 0xFFu32) << 16u32)
}

/// Swaps the red and blue bytes of a vertex colour.
pub fn col_to_dx9_argb(col: u32) -> (c: u32)
    ensures
        c == spec_col_to_dx9_argb(col),
{
    (col & 0xFF00FF00) | ((col & 0xFF0000) >> 16) | ((col & 0xFF) << 16)
}

/// Swapping red and blue twice gives the colour back.
pub proof fn law_col_swap_involution(col: u32)
    ensures
        spec_col_to_dx9_argb(spec_col_to_dx9_argb(col)) == col,
{
    assert(((col & 0xFF00FF00u32) | ((col & 0xFF0000u32) >> 16u32) | ((col & 0xFFu32) << 16u32)) & 0xFF00FF00u32
        | (((col & 0xFF00FF00u32) | ((col & 0xFF0000u32) >> 16u32) | ((col & 0xFFu32) << 16u32)) & 0xFF0000u32) >> 16u32
        | (((col & 0xFF00FF00u32) | ((col & 0xFF0000u32) >> 16u32) | ((col & 0xFFu32) << 16u32)) & 0xFFu32) << 16u32
        == col) by (bit_vector);
}

/// Byte by byte: alpha (the top byte) and green (the second byte) stay where they are, the
/// red of the lowest byte moves to the third, and the blue of the third to the lowest.
pub proof fn law_col_bytes(col: u32)
    ensures
        spec_col_to_dx9_argb(col) / 0x1000000 == col / 0x1000000,
        (spec_col_to_dx9_argb(col) / 0x100) % 0x100 == (col / 0x100) % 0x100,
        (spec_col_to_dx9_argb(col) / 0x10000) % 0x100 == col % 0x100,
        spec_col_to_dx9_argb(col) % 0x100 == (col / 0x10000) % 0x100,
{
    let c = spec_col_to_dx9_argb(col);
    assert(c == (col & 0xFF00FF00u32) | ((col & 0xFF0000u32) >> 16u32) | ((col & 0xFFu32) << 16u32));
    assert(c == (col & 0xFF00FF00u32) | ((col & 0xFF0000u32) >> 16u32) | ((col & 0xFFu32) << 16u32) ==> {
        &&& c / 0x1000000 == col / 0x1000000
        &&& (c / 0x100) % 0x100 == (col / 0x100) % 0x100
        &&& (c / 0x10000) % 0x100 == col % 0x100
        &&& c % 0x100 == (col / 0x10000) % 0x100
    }) by (bit_vector);
}

/// Extra vertices a vertex buffer is made with beyond what a frame needs.
pub const VERTEX_BUF_ADD_CAPACITY: usize = 5000;

/// Extra indices an index buffer is made with beyond what a frame needs.
pub const INDEX_BUF_ADD_CAPACITY: usize = 10000;

/// The capacity a buffer of `capacity` elements must be made anew with to hold `needed`,
/// with `extra` to spare; `None` when it is large enough.
pub fn grown_capacity(capacity: usize, needed: usize, extra: usize) -> (c: Option<usize>)
    requires
        needed + extra <= usize::MAX,
    ensures
        c == if capacity < needed {
            Some((needed + extra) as usize)
        } else {
            None::<usize>
        },
{
    if capacity < needed {
        Some(needed + extra)
    } else {
        None
    }
}


/// One rectangle to copy: `h` rows of `w` four-byte texels, from `src_offset` in the
/// texels of the interface with rows `src_pitch` bytes apart, to `dst_offset` in the locked
/// device texture with rows `dst_pitch` bytes apart. Offsets are in bytes.
#[derive(Clone, Copy, Debug, PartialEq, Eq, Structural)]
pub struct RegionCopy {
    pub src_offset: usize,
    pub src_pitch: usize,
    pub dst_offset: usize,
    pub dst_pitch: usize,
    pub w: usize,
    pub h: usize,
}

/// The texel offset of an updated rectangle inside the locked area: `pitch / 4` texels per
/// row of the device texture.
pub open spec fn dst_texel_offset(r: TextureRect, area: TextureRect, pitch: i32) -> int {
    (r.x - area.x) + (r.y - area.y) * (pitch / 4)
}

/// Whether the offsets of an updated rectangle are computed without overflow and lie
/// inside the locked area's origin.
pub open spec fn region_fits(r: TextureRect, width: i32, bpp: i32, area: TextureRect, pitch: i32) -> bool {
    &&& r.x >= area.x
    &&& r.y >= area.y
    &&& r.x + r.y * width <= i32::MAX
    &&& (r.x + r.y * width) * bpp <= i32::MAX
    &&& dst_texel_offset(r, area, pitch) <= i32::MAX
    &&& 4 * dst_texel_offset(r, area, pitch) <= usize::MAX
}

/// The copy that brings an updated rectangle over: from its texels in the interface's
/// buffer (`width` texels of `bpp` bytes a row) to its place in the locked area that
/// starts at `area`'s corner.
pub open spec fn spec_region_copy(r: TextureRect, width: i32, bpp: i32, area: TextureRect, pitch: i32) -> RegionCopy {
    RegionCopy {
        src_offset: ((r.x + r.y * width) * bpp) as usize,
        src_pitch: (width * 4) as usize,
        dst_offset: (4 * dst_texel_offset(r, area, pitch)) as usize,
        dst_pitch: pitch as usize,
        w: r.w as usize,
        h: r.h as usize,
    }
}

impl TextureData {
    /// The copies for every updated rectangle, in order, into the area locked at
    /// `update_rect` with rows `pitch` bytes apart.
    pub fn update_copies(&self, pitch: i32) -> (copies: Vec<RegionCopy>)
        requires
            self.width >= 0,
            self.bytes_per_pixel >= 0,
            pitch >= 0,
            self.width * 4 <= i32::MAX,
            forall|i: int|
                0 <= i < self.updates.len() ==> region_fits(
                    #[trigger] self.updates@[i],
                    self.width,
                    self.bytes_per_pixel,
                    self.update_rect,
                    pitch,
                ),
        ensures
            copies@.len() == self.updates@.len(),
            forall|i: int|
                0 <= i < copies@.len() ==> #[trigger] copies@[i] == spec_region_copy(
                    self.updates@[i],
                    self.width,
                    self.bytes_per_pixel,
                    self.update_rect,
                    pitch,
                ),
    {
        let mut copies: Vec<RegionCopy> = Vec::new();
        let area = self.update_rect;
        let texels_per_row: i32 = pitch / 4;
        let mut i: usize = 0;
        while i < self.updates.len()
            invariant
                i <= self.updates.len(),
                area == self.update_rect,
                texels_per_row == pitch / 4,
                self.width >= 0,
                self.bytes_per_pixel >= 0,
                pitch >= 0,
                self.width * 4 <= i32::MAX,
                forall|k: int|
                    0 <= k < self.updates.len() ==> region_fits(
                        #[trigger] self.updates@[k],
                        self.width,
                        self.bytes_per_pixel,
                        self.update_rect,
                        pitch,
                    ),
                copies@.len() == i,
                forall|k: int|
                    0 <= k < i ==> #[trigger] copies@[k] == spec_region_copy(
                        self.updates@[k],
                        self.width,
                        self.bytes_per_pixel,
                        self.update_rect,
                        pitch,
                    ),
            decreases self.updates.len() - i,
        {
            let r = self.updates[i];
            assert(region_fits(self.updates@[i as int], self.width, self.bytes_per_pixel, self.update_rect, pitch));
            let x: i32 = r.x as i32;
            let y: i32 = r.y as i32;
            proof {
                assert(0 <= y * self.width) by (nonlinear_arith)
                    requires
                        y >= 0,
                        self.width >= 0,
                ;
                assert(0 <= (x + y * self.width) * self.bytes_per_pixel) by (nonlinear_arith)
                    requires
                        x >= 0,
                        0 <= y * self.width,
                        self.bytes_per_pixel >= 0,
                ;
                assert(0 <= (y - area.y) * texels_per_row) by (nonlinear_arith)
                    requires
                        y - area.y >= 0,
                        texels_per_row >= 0,
                ;
            }
            let row_start: i32 = x + y * self.width;
            let src_offset: i32 = row_start * self.bytes_per_pixel;
            let dx: i32 = x - area.x as i32;
            let dy: i32 = y - area.y as i32;
            let dst_texel: i32 = dx + dy * texels_per_row;
            let dst_offset: usize = 4 * (dst_texel as usize);
            copies.push(RegionCopy {
                src_offset: src_offset as usize,
                src_pitch: (self.width * 4) as usize,
                dst_offset,
                dst_pitch: pitch as usize,
                w: r.w as usize,
                h: r.h as usize,
            });
            i = i + 1;
        }
        copies
    }
}

/// Whether a copy stays inside both buffers.
pub open spec fn copy_in_bounds(c: RegionCopy, src_len: int, dst_len: int) -> bool {
    c.h > 0 ==> {
        &&& c.src_offset + (c.h - 1) * c.src_pitch + 4 * c.w <= src_len
        &&& c.dst_offset + (c.h - 1) * c.dst_pitch + 4 * c.w <= dst_len
    }
}

/// `dst` after the copies have been made in order.
pub open spec fn applied_copies(dst: Seq<u8>, src: Seq<u8>, copies: Seq<RegionCopy>) -> Seq<u8>
    decreases copies.len(),
{
    if copies.len() == 0 {
        dst
    } else {
        let c = copies.last();
        copied_rows(
            applied_copies(dst, src, copies.drop_last()),
            src,
            c.src_offset as int,
            c.src_pitch as int,
            c.dst_offset as int,
            c.dst_pitch as int,
            4 * c.w,
            c.h as nat,
        )
    }
}

/// Whether a copy stays inside both buffers, computed without overflow.
fn copy_fits(c: &RegionCopy, src_len: usize, dst_len: usize) -> (b: bool)
    ensures
        b == copy_in_bounds(*c, src_len as int, dst_len as int),
{
    if c.h == 0 {
        return true;
    }
    let row = match c.w.checked_mul(4) {
        Some(v) => v,
        None => return false,
    };
    let src_rows = match (c.h - 1).checked_mul(c.src_pitch) {
        Some(v) => v,
        None => return false,
    };
    let dst_rows = match (c.h - 1).checked_mul(c.dst_pitch) {
        Some(v) => v,
        None => return false,
    };
    let src_end = match c.src_offset.checked_add(src_rows) {
        Some(v) => match v.checked_add(row) {
            Some(e) => e,
            None => return false,
        },
        None => return false,
    };
    let dst_end = match c.dst_offset.checked_add(dst_rows) {
        Some(v) => match v.checked_add(row) {
            Some(e) => e,
            None => return false,
        },
        None => return false,
    };
    src_end <= src_len && dst_end <= dst_len
}

/// Makes every copy in order if each stays inside both buffers and says so; otherwise
/// leaves `dst` as it was and says that it did nothing.
pub fn copy_regions(src: &[u8], copies: &Vec<RegionCopy>, dst: &mut Vec<u8>) -> (done: bool)
    ensures
        done == forall|i: int| 0 <= i < copies.len() ==> copy_in_bounds(#[trigger] copies@[i], src.len() as int, old(dst).len() as int),
        done ==> final(dst)@ == applied_copies(old(dst)@, src@, copies@),
        !done ==> final(dst)@ == old(dst)@,
{
    let mut i: usize = 0;
    while i < copies.len()
        invariant
            i <= copies.len(),
            dst@ == old(dst)@,
            forall|k: int| 0 <= k < i ==> copy_in_bounds(#[trigger] copies@[k], src.len() as int, dst.len() as int),
        decreases copies.len() - i,
    {
        if !copy_fits(&copies[i], src.len(), dst.len()) {
            return false;
        }
        i = i + 1;
    }
    let mut j: usize = 0;
    while j < copies.len()
        invariant
            j <= copies.len(),
            dst.len() == old(dst).len(),
            forall|k: int| 0 <= k < copies.len() ==> copy_in_bounds(#[trigger] copies@[k], src.len() as int, old(dst).len() as int),
            dst@ == applied_copies(old(dst)@, src@, copies@.take(j as int)),
        decreases copies.len() - j,
    {
        let c = copies[j];
        assert(copy_in_bounds(copies@[j as int], src.len() as int, old(dst).len() as int));
        copy_texture_region(src, c.src_offset, c.src_pitch, dst, c.dst_offset, c.dst_pitch, c.w, c.h);
        assert(copies@.take(j + 1).drop_last() =~= copies@.take(j as int));
        j = j + 1;
    }
    assert(copies@.take(copies.len() as int) =~= copies@);
    true
}

} // verus!
