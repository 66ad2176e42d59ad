//! Sizes and offsets of the levels of a mip chain, shared by both conversion directions.
use vstd::prelude::*;
use crate::format::StorageClass;

verus! {

/// Bytes of the fixed part of a TEX header; the mip offset table starts here.
pub const TEX_HEADER_SIZE: i32 = 0xB8;

/// One level of a mip chain.
#[derive(Debug, Clone, Copy, PartialEq, Eq, Structural)]
pub struct MipLevel {
    pub width: i32,
    pub height: i32,
    /// Bytes of pixel data of the level.
    pub size: i128,
    /// Offset of the level's pixel data from the start of the TEX file.
    pub base: i128,
}

/// Integer halving that rounds toward zero, as integer division does on `i32`.
pub open spec fn half_toward_zero(x: int) -> int {
    if x >= 0 {
        x / 2
    } else {
        -((-x) / 2)
    }
}

/// The smallest width or height of a level after the first: 2 for raw pixels, else the
/// 4-pixel compression block.
pub open spec fn min_dim(is_raw: bool) -> int {
    if is_raw {
        2
    } else {
        4
    }
}

/// The width (or height) of the next level: halved, then raised to the floor.
pub open spec fn next_dim(d: int, is_raw: bool) -> int {
    let h = half_toward_zero(d);
    if h < min_dim(is_raw) {
        min_dim(is_raw)
    } else {
        h
    }
}

/// The width (or height) of level `k` of a chain whose first level has `d`.
pub open spec fn dim_at(d: int, k: nat, is_raw: bool) -> int
    decreases k,
{
    if k == 0 {
        d
    } else {
        next_dim(dim_at(d, (k - 1) as nat, is_raw), is_raw)
    }
}

/// Bytes of pixel data of a `w` by `h` level.
pub open spec fn level_size(class: StorageClass, is_raw: bool, w: int, h: int) -> int {
    match class {
        StorageClass::HalfByte => half_toward_zero(w * h),
        StorageClass::TwoBytes => w * h * 2,
        StorageClass::OneByte => if is_raw {
            w * h * 4
        } else {
            w * h
        },
    }
}

/// Where the pixel data of level 0 starts: after the fixed header and the offset table of
/// `mip_count` eight-byte entries.
pub open spec fn first_base(mip_count: int) -> int {
    TEX_HEADER_SIZE + 8 * mip_count
}

/// Where the pixel data of level `k` starts.
pub open spec fn base_at(
    width: int,
    height: int,
    mip_count: int,
    class: StorageClass,
    is_raw: bool,
    k: nat,
) -> int
    decreases k,
{
    if k == 0 {
        first_base(mip_count)
    } else {
        let j = (k - 1) as nat;
        base_at(width, height, mip_count, class, is_raw, j) + level_size(
            class,
            is_raw,
            dim_at(width, j, is_raw),
            dim_at(height, j, is_raw),
        )
    }
}

/// Number of levels of a chain with a stored count of `mip_count`.
pub open spec fn level_count(mip_count: i32) -> nat {
    if mip_count < 0 {
        0
    } else {
        mip_count as nat
    }
}

/// Level `k` of the chain, as `compute_mip_chain` builds it.
pub open spec fn level_at(
    width: i32,
    height: i32,
    mip_count: i32,
    class: StorageClass,
    is_raw: bool,
    k: nat,
) -> MipLevel {
    MipLevel {
        width: dim_at(width as int, k, is_raw) as i32,
        height: dim_at(height as int, k, is_raw) as i32,
        size: level_size(
            class,
            is_raw,
            dim_at(width as int, k, is_raw),
            dim_at(height as int, k, is_raw),
        ) as i128,
        base: base_at(width as int, height as int, mip_count as int, class, is_raw, k) as i128,
    }
}

/// A level's width and height stay within `i32` and reach the floor after one halving.
pub proof fn lemma_dim_bounds(d: int, k: nat, is_raw: bool)
    requires
        i32::MIN <= d <= i32::MAX,
    ensures
        i32::MIN <= dim_at(d, k, is_raw) <= i32::MAX,
        k > 0 ==> min_dim(is_raw) <= dim_at(d, k, is_raw) <= if d < 0 {
            min_dim(is_raw)
        } else if d / 2 < min_dim(is_raw) {
            min_dim(is_raw)
        } else {
            d / 2
        },
    decreases k,
{
    if k > 0 {
        lemma_dim_bounds(d, (k - 1) as nat, is_raw);
    }
}

/// A level of at least two pixels has data: its size is positive in every storage class.
pub proof fn lemma_level_size_positive(class: StorageClass, is_raw: bool, w: int, h: int)
    requires
        w >= 1,
        h >= 1,
        w * h >= 2,
    ensures
        level_size(class, is_raw, w, h) > 0,
{
}

/// For a first level of positive width and height holding at least two pixels, each level
/// starts after the previous one: the offsets of the chain increase strictly.
pub proof fn lemma_bases_increase(
    width: i32,
    height: i32,
    mip_count: i32,
    class: StorageClass,
    is_raw: bool,
    k: nat,
)
    requires
        width >= 1,
        height >= 1,
        width * height >= 2,
    ensures
        base_at(width as int, height as int, mip_count as int, class, is_raw, k) < base_at(
            width as int,
            height as int,
            mip_count as int,
            class,
            is_raw,
            k + 1,
        ),
{
    let w = dim_at(width as int, k, is_raw);
    let h = dim_at(height as int, k, is_raw);
    lemma_dim_bounds(width as int, k, is_raw);
    lemma_dim_bounds(height as int, k, is_raw);
    if k > 0 {
        assert(w * h >= 4) by (nonlinear_arith)
            requires
                w >= 2,
                h >= 2,
        ;
    }
    lemma_level_size_positive(class, is_raw, w, h);
    assert(base_at(width as int, height as int, mip_count as int, class, is_raw, k + 1) == base_at(
        width as int,
        height as int,
        mip_count as int,
        class,
        is_raw,
        k,
    ) + level_size(class, is_raw, w, h));
}

/// Under the same bounds, a later level starts after every earlier one, and no level starts
/// before the end of the offset table.
pub proof fn lemma_bases_ordered(
    width: i32,
    height: i32,
    mip_count: i32,
    class: StorageClass,
    is_raw: bool,
    i: nat,
    j: nat,
)
    requires
        width >= 1,
        height >= 1,
        width * height >= 2,
        i < j,
    ensures
        first_base(mip_count as int) <= base_at(
            width as int,
            height as int,
            mip_count as int,
            class,
            is_raw,
            i,
        ),
        base_at(width as int, height as int, mip_count as int, class, is_raw, i) < base_at(
            width as int,
            height as int,
            mip_count as int,
            class,
            is_raw,
            j,
        ),
    decreases j,
{
    lemma_bases_increase(width, height, mip_count, class, is_raw, (j - 1) as nat);
    if i < j - 1 {
        lemma_bases_ordered(width, height, mip_count, class, is_raw, i, (j - 1) as nat);
    } else if i > 0 {
        lemma_bases_ordered(width, height, mip_count, class, is_raw, 0, i);
    }
}

/// Rounds half of `x` toward zero.
fn half_i128(x: i128) -> (r: i128)
    requires
        -0x1_0000_0000_0000_0000_0000 <= x <= 0x1_0000_0000_0000_0000_0000,
    ensures
        r == half_toward_zero(x as int),
{
    if x >= 0 {
        x / 2
    } else {
        -((-x) / 2)
    }
}

/// The width (or height) of the next level.
pub fn next_dimension(d: i32, is_raw: bool) -> (r: i32)
    ensures
        r == next_dim(d as int, is_raw),
{
    let h = half_i128(d as i128);
    let floor: i128 = if is_raw {
        2
    } else {
        4
    };
    if h < floor {
        floor as i32
    } else {
        h as i32
    }
}

/// Bytes of pixel data of a `w` by `h` level.
pub fn level_bytes(class: StorageClass, is_raw: bool, w: i32, h: i32) -> (r: i128)
    ensures
        r == level_size(class, is_raw, w as int, h as int),
        -0x1_0000_0000_0000_0000 <= r <= 0x1_0000_0000_0000_0000,
{
    assert(-0x4000_0000_0000_0000 <= w * h <= 0x4000_0000_0000_0000) by (nonlinear_arith)
        requires
            i32::MIN <= w <= i32::MAX,
            i32::MIN <= h <= i32::MAX,
    ;
    let p = (w as i128) * (h as i128);
    match class {
        StorageClass::HalfByte => half_i128(p),
        StorageClass::TwoBytes => p * 2,
        StorageClass::OneByte => if is_raw {
            p * 4
        } else {
            p
        },
    }
}

/// The levels of a mip chain: one per stored level, each with its dimensions, its size in
/// bytes and the offset of its data in a TEX file.
pub fn compute_mip_chain(
    width: i32,
    height: i32,
    mip_count: i32,
    class: StorageClass,
    is_raw: bool,
) -> (r: Vec<MipLevel>)
    ensures
        r@.len() == level_count(mip_count),
        forall|k: int|
            0 <= k < r@.len() ==> #[trigger] r@[k] == level_at(
                width,
                height,
                mip_count,
                class,
                is_raw,
                k as nat,
            ),
{
    let mut levels: Vec<MipLevel> = Vec::new();
    let mut cur_w: i32 = width;
    let mut cur_h: i32 = height;
    let mut base: i128 = TEX_HEADER_SIZE as i128 + 8 * (mip_count as i128);
    let mut k: i32 = 0;
    while k < mip_count
        invariant
            0 <= k,
            mip_count >= 0 ==> k <= mip_count,
            mip_count < 0 ==> k == 0,
            levels@.len() == k,
            cur_w == dim_at(width as int, k as nat, is_raw),
            cur_h == dim_at(height as int, k as nat, is_raw),
            base == base_at(width as int, height as int, mip_count as int, class, is_raw, k as nat),
            -0x100_0000_0000 - k * 0x1_0000_0000_0000_0000 <= base,
            base <= 0x100_0000_0000 + k * 0x1_0000_0000_0000_0000,
            forall|j: int|
                0 <= j < k ==> #[trigger] levels@[j] == level_at(
                    width,
                    height,
                    mip_count,
                    class,
                    is_raw,
                    j as nat,
                ),
        decreases mip_count - k,
    {
        let size = level_bytes(class, is_raw, cur_w, cur_h);
        proof {
            lemma_dim_bounds(width as int, k as nat, is_raw);
            lemma_dim_bounds(height as int, k as nat, is_raw);
        }
        levels.push(MipLevel { width: cur_w, height: cur_h, size, base });
        base = base + size;
        cur_w = next_dimension(cur_w, is_raw);
        cur_h = next_dimension(cur_h, is_raw);
        k = k + 1;
    }
    levels
}

} // verus!
