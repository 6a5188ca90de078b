//! Tensor substrate: shape, dtype and row-major slicing math.
//!
//! Element data of `f32` tensors is carried as the IEEE-754 bit pattern
//! of each element (`f32::to_bits`), so the index math here never touches
//! floating point; renderers decode the bits.
use vstd::prelude::*;

verus! {

// ─────────────────────────────────────────────────────────────────────
// Mathematical model of shapes
// ─────────────────────────────────────────────────────────────────────

/// Product of all extents (1 for the empty shape).
pub open spec fn product(s: Seq<usize>) -> int
    decreases s.len(),
{
    if s.len() == 0 {
        1
    } else {
        product(s.drop_last()) * s.last()
    }
}

/// Every running product, taken left to right, fits in a `usize`.
pub open spec fn prefix_products_fit(s: Seq<usize>) -> bool {
    forall|k: int| 0 <= k <= s.len() ==> product(#[trigger] s.take(k)) <= usize::MAX
}

/// Every product of a trailing run `s[i..]` with `i >= 1` fits in a `usize`.
pub open spec fn suffix_products_fit(s: Seq<usize>) -> bool {
    forall|i: int| 1 <= i <= s.len() ==> product(#[trigger] s.subrange(i, s.len() as int)) <= usize::MAX
}

/// Row-major linear index of `c` in a shape `d` (Horner form):
/// `idx(c) = Σ c_i * (d_{i+1} * … * d_k)`.
pub open spec fn row_major(c: Seq<usize>, d: Seq<usize>) -> int
    decreases c.len(),
{
    if c.len() == 0 || d.len() == 0 {
        0
    } else {
        row_major(c.drop_last(), d.drop_last()) * d.last() + c.last()
    }
}

/// Row-major strides of a shape, in elements: the stride of axis `i`
/// is the product of every extent after `i`.
pub open spec fn row_major_strides(d: Seq<usize>) -> Seq<int> {
    Seq::new(d.len(), |i: int| product(d.subrange(i + 1, d.len() as int)))
}

/// `Σ c_i * s_i` over the common length.
pub open spec fn dot(c: Seq<usize>, s: Seq<usize>) -> int
    decreases c.len(),
{
    if c.len() == 0 || s.len() == 0 {
        0
    } else {
        dot(c.drop_last(), s.drop_last()) + c.last() * s.last()
    }
}

/// Each coordinate is below its extent.
pub open spec fn in_bounds(c: Seq<usize>, d: Seq<usize>) -> bool {
    c.len() == d.len() && forall|i: int| 0 <= i < c.len() ==> #[trigger] c[i] < d[i]
}

/// The flat row-major index of `c` in a tensor of shape `d`: none
/// when `c` is out of bounds or the element count exceeds `usize`.
pub open spec fn flat_index_spec(c: Seq<usize>, d: Seq<usize>) -> Option<usize> {
    if in_bounds(c, d) && product(d) <= usize::MAX {
        Some(row_major(c, d) as usize)
    } else {
        None
    }
}

pub proof fn lemma_product_nonneg(s: Seq<usize>)
    ensures
        product(s) >= 0,
    decreases s.len(),
{
    if s.len() > 0 {
        lemma_product_nonneg(s.drop_last());
        let a = product(s.drop_last());
        let b = s.last() as int;
        assert(a * b >= 0) by (nonlinear_arith)
            requires
                a >= 0,
                b >= 0,
        ;
    }
}

/// `product(x ++ s) == x * product(s)`.
pub proof fn lemma_product_prepend(x: usize, s: Seq<usize>)
    ensures
        product(seq![x] + s) == x * product(s),
    decreases s.len(),
{
    let t = seq![x] + s;
    if s.len() == 0 {
        assert(t.drop_last() =~= Seq::<usize>::empty());
        assert(t.last() == x);
        assert(product(t) == product(t.drop_last()) * t.last());
    } else {
        assert(t.drop_last() =~= seq![x] + s.drop_last());
        assert(t.last() == s.last());
        lemma_product_prepend(x, s.drop_last());
        let p = product(s.drop_last());
        let l = s.last() as int;
        assert((x * p) * l == x * (p * l)) by (nonlinear_arith);
        assert(product(t) == product(t.drop_last()) * t.last());
    }
}

/// Product of a trailing run, unfolded at its head.
pub proof fn lemma_product_suffix_step(d: Seq<usize>, i: int)
    requires
        0 <= i < d.len(),
    ensures
        product(d.subrange(i, d.len() as int)) == d[i] * product(d.subrange(i + 1, d.len() as int)),
{
    let n = d.len() as int;
    assert(d.subrange(i, n) =~= seq![d[i]] + d.subrange(i + 1, n));
    lemma_product_prepend(d[i], d.subrange(i + 1, n));
}

/// `row_major(x ++ c, y ++ d) == x * product(d) + row_major(c, d)`.
pub proof fn lemma_row_major_prepend(x: usize, y: usize, c: Seq<usize>, d: Seq<usize>)
    requires
        c.len() == d.len(),
    ensures
        row_major(seq![x] + c, seq![y] + d) == x * product(d) + row_major(c, d),
    decreases c.len(),
{
    let c2 = seq![x] + c;
    let d2 = seq![y] + d;
    if c.len() == 0 {
        assert(c2.drop_last() =~= Seq::<usize>::empty());
        assert(d2.drop_last() =~= Seq::<usize>::empty());
        assert(c2.last() == x);
        assert(row_major(c2, d2) == row_major(c2.drop_last(), d2.drop_last()) * d2.last() + c2.last());
        assert(product(d) == 1);
    } else {
        assert(c2.drop_last() =~= seq![x] + c.drop_last());
        assert(d2.drop_last() =~= seq![y] + d.drop_last());
        assert(c2.last() == c.last());
        assert(d2.last() == d.last());
        lemma_row_major_prepend(x, y, c.drop_last(), d.drop_last());
        let p = product(d.drop_last());
        let r = row_major(c.drop_last(), d.drop_last());
        let l = d.last() as int;
        assert((x * p + r) * l == x * (p * l) + r * l) by (nonlinear_arith);
    }
}

/// A row-major index of in-bounds coordinates lies below the product.
pub proof fn lemma_row_major_bound(c: Seq<usize>, d: Seq<usize>)
    requires
        in_bounds(c, d),
    ensures
        0 <= row_major(c, d) < product(d),
    decreases c.len(),
{
    if c.len() > 0 {
        let c0 = c.drop_last();
        let d0 = d.drop_last();
        assert(in_bounds(c0, d0)) by {
            assert forall|i: int| 0 <= i < c0.len() implies #[trigger] c0[i] < d0[i] by {
                assert(c[i] < d[i]);
            }
        }
        lemma_row_major_bound(c0, d0);
        let r = row_major(c0, d0);
        let p = product(d0);
        let l = d.last() as int;
        let x = c.last() as int;
        assert(c[c.len() - 1] < d[d.len() - 1]);
        assert(0 <= r * l + x < p * l) by (nonlinear_arith)
            requires
                0 <= r < p,
                0 <= x < l,
        ;
    }
}

/// The trailing products of a shape with every extent at least one
/// never decrease as more leading axes are included.
pub proof fn lemma_suffix_product_monotone(d: Seq<usize>, i: int, j: int)
    requires
        0 <= i <= j <= d.len(),
        forall|k: int| 0 <= k < d.len() ==> #[trigger] d[k] >= 1,
    ensures
        product(d.subrange(j, d.len() as int)) <= product(d.subrange(i, d.len() as int)),
    decreases j - i,
{
    if i < j {
        lemma_suffix_product_monotone(d, i + 1, j);
        lemma_product_suffix_step(d, i);
        lemma_product_nonneg(d.subrange(i + 1, d.len() as int));
        let p = product(d.subrange(i + 1, d.len() as int));
        let x = d[i] as int;
        assert(p <= x * p) by (nonlinear_arith)
            requires
                x >= 1,
                p >= 0,
        ;
    }
}

// ─────────────────────────────────────────────────────────────────────
// Element types and data handles
// ─────────────────────────────────────────────────────────────────────

/// Element data type.
#[derive(Debug, Clone, Copy, PartialEq, Eq, Structural)]
pub enum TensorDType {
    F32,
    F64,
    I32,
    I64,
    U8,
    Bool,
}

pub open spec fn dtype_bytes(t: TensorDType) -> usize {
    match t {
        TensorDType::F32 | TensorDType::I32 => 4,
        TensorDType::F64 | TensorDType::I64 => 8,
        TensorDType::U8 | TensorDType::Bool => 1,
    }
}

impl TensorDType {
    /// Bytes per element. `Bool` takes one byte (no packing).
    pub fn byte_size(self) -> (n: usize)
        ensures
            n == dtype_bytes(self),
    {
        match self {
            TensorDType::F32 | TensorDType::I32 => 4,
            TensorDType::F64 | TensorDType::I64 => 8,
            TensorDType::U8 | TensorDType::Bool => 1,
        }
    }
}

/// Where a tensor's element data lives.
#[derive(Debug, Clone, PartialEq)]
pub enum TensorRef {
    /// Externally owned blob (a URI, a file path, a store id).
    External { uri: String },
    /// Inline `f32` elements, row-major, each as its IEEE-754 bit pattern.
    InlineF32 { bits: Vec<u32> },
    /// Inline `u8` elements, row-major.
    InlineU8 { data: Vec<u8> },
    /// Shape-only placeholder.
    Empty,
}

/// Soft cap for inline payloads, in bytes (1 MiB).
pub const TENSOR_INLINE_MAX_BYTES: usize = 1048576;

/// Errors met when building, validating or slicing a tensor.
#[derive(Debug, Clone, PartialEq, Eq, Structural)]
pub enum TensorError {
    ShapeMismatch { expected: usize, actual: usize },
    DTypeMismatch,
    ShapeOverflow,
    InlineTooLarge(usize),
    SliceAxisOob { axis: usize, rank: usize },
    SliceIndexOob { index: usize, size: usize },
}

/// One resident element, undecoded.
#[derive(Debug, Clone, Copy, PartialEq, Eq, Structural)]
pub enum TensorElement {
    /// Bit pattern of an `f32` element.
    F32Bits(u32),
    /// A `u8` element.
    U8(u8),
}

/// Shape + dtype + data handle.
#[derive(Debug, Clone, PartialEq)]
pub struct TensorSpec {
    /// Row-major shape; empty means scalar.
    pub dims: Vec<usize>,
    pub dtype: TensorDType,
    pub data: TensorRef,
    /// Optional human label.
    pub label: Option<String>,
}

/// The outcome `validate` owes for a spec with the given shape, dtype and data.
pub open spec fn validate_spec(dims: Seq<usize>, dtype: TensorDType, data: TensorRef) -> Result<(), TensorError> {
    match data {
        TensorRef::Empty | TensorRef::External { .. } => Ok(()),
        TensorRef::InlineF32 { bits } => {
            if dtype != TensorDType::F32 {
                Err(TensorError::DTypeMismatch)
            } else if !prefix_products_fit(dims) {
                Err(TensorError::ShapeOverflow)
            } else if bits.len() != product(dims) {
                Err(TensorError::ShapeMismatch { expected: product(dims) as usize, actual: bits.len() })
            } else if product(dims) * 4 > usize::MAX {
                Err(TensorError::ShapeOverflow)
            } else if product(dims) * 4 > TENSOR_INLINE_MAX_BYTES {
                Err(TensorError::InlineTooLarge((product(dims) * 4) as usize))
            } else {
                Ok(())
            }
        },
        TensorRef::InlineU8 { data } => {
            if dtype != TensorDType::U8 && dtype != TensorDType::Bool {
                Err(TensorError::DTypeMismatch)
            } else if !prefix_products_fit(dims) {
                Err(TensorError::ShapeOverflow)
            } else if data.len() != product(dims) {
                Err(TensorError::ShapeMismatch { expected: product(dims) as usize, actual: data.len() })
            } else if product(dims) > TENSOR_INLINE_MAX_BYTES {
                Err(TensorError::InlineTooLarge(product(dims) as usize))
            } else {
                Ok(())
            }
        },
    }
}

/// `Some(product)` when every running product fits, else `None`.
pub fn checked_product(dims: &Vec<usize>) -> (r: Option<usize>)
    ensures
        r == (if prefix_products_fit(dims@) { Some(product(dims@) as usize) } else { None::<usize> }),
        r is Some ==> r->0 == product(dims@),
{
    let mut acc: usize = 1;
    let mut i: usize = 0;
    assert(dims@.take(0) =~= Seq::<usize>::empty());
    while i < dims.len()
        invariant
            i <= dims.len(),
            acc == product(dims@.take(i as int)),
            forall|k: int| 0 <= k <= i ==> product(#[trigger] dims@.take(k)) <= usize::MAX,
        decreases dims.len() - i,
    {
        assert(dims@.take(i + 1).drop_last() =~= dims@.take(i as int));
        match acc.checked_mul(dims[i]) {
            Some(v) => {
                acc = v;
                i = i + 1;
            },
            None => {
                assert(product(dims@.take(i + 1)) > usize::MAX);
                return None;
            },
        }
    }
    assert(dims@.take(dims.len() as int) =~= dims@);
    Some(acc)
}

impl TensorSpec {
    pub fn new(dims: Vec<usize>, dtype: TensorDType, data: TensorRef) -> (s: Self)
        ensures
            s.dims == dims,
            s.dtype == dtype,
            s.data == data,
            s.label is None,
    {
        TensorSpec { dims, dtype, data, label: None }
    }

    /// `true` for an empty-dims scalar.
    pub fn is_scalar(&self) -> (b: bool)
        ensures
            b == (self.dims.len() == 0),
    {
        self.dims.len() == 0
    }

    pub fn rank(&self) -> (r: usize)
        ensures
            r == self.dims.len(),
    {
        self.dims.len()
    }

    /// Total element count (1 for scalars); `None` when a running
    /// product overflows `usize`.
    pub fn element_count(&self) -> (r: Option<usize>)
        ensures
            r == (if prefix_products_fit(self.dims@) { Some(product(self.dims@) as usize) } else { None::<usize> }),
            r is Some ==> r->0 == product(self.dims@),
    {
        checked_product(&self.dims)
    }

    /// Bytes the dense data would take; `None` on overflow.
    pub fn byte_size(&self) -> (r: Option<usize>)
        ensures
            r == (if prefix_products_fit(self.dims@) && product(self.dims@) * dtype_bytes(self.dtype)
                <= usize::MAX {
                Some((product(self.dims@) * dtype_bytes(self.dtype)) as usize)
            } else {
                None::<usize>
            }),
    {
        match self.element_count() {
            Some(n) => n.checked_mul(self.dtype.byte_size()),
            None => None,
        }
    }

    /// Check an inline payload against the declared shape and dtype.
    /// `External` and `Empty` always pass.
    pub fn validate(&self) -> (r: Result<(), TensorError>)
        ensures
            r == validate_spec(self.dims@, self.dtype, self.data),
    {
        match &self.data {
            TensorRef::Empty => Ok(()),
            TensorRef::External { .. } => Ok(()),
            TensorRef::InlineF32 { bits } => {
                if self.dtype != TensorDType::F32 {
                    return Err(TensorError::DTypeMismatch);
                }
                let expected = match self.element_count() {
                    Some(n) => n,
                    None => {
                        return Err(TensorError::ShapeOverflow);
                    },
                };
                if bits.len() != expected {
                    return Err(TensorError::ShapeMismatch { expected, actual: bits.len() });
                }
                let bytes = match expected.checked_mul(4) {
                    Some(b) => b,
                    None => {
                        return Err(TensorError::ShapeOverflow);
                    },
                };
                if bytes > TENSOR_INLINE_MAX_BYTES {
                    return Err(TensorError::InlineTooLarge(bytes));
                }
                Ok(())
            },
            TensorRef::InlineU8 { data } => {
                if self.dtype != TensorDType::U8 && self.dtype != TensorDType::Bool {
                    return Err(TensorError::DTypeMismatch);
                }
                let expected = match self.element_count() {
                    Some(n) => n,
                    None => {
                        return Err(TensorError::ShapeOverflow);
                    },
                };
                if data.len() != expected {
                    return Err(TensorError::ShapeMismatch { expected, actual: data.len() });
                }
                if expected > TENSOR_INLINE_MAX_BYTES {
                    return Err(TensorError::InlineTooLarge(expected));
                }
                Ok(())
            },
        }
    }
}


/// If the trailing run `d[i..]` already overflows, the whole index
/// cannot be both in bounds and addressable.
proof fn lemma_suffix_overflow_excludes(c: Seq<usize>, d: Seq<usize>, i: int)
    requires
        c.len() == d.len(),
        0 <= i <= d.len(),
        product(d.subrange(i, d.len() as int)) > usize::MAX,
    ensures
        !(in_bounds(c, d) && product(d) <= usize::MAX),
{
    if in_bounds(c, d) {
        assert forall|k: int| 0 <= k < d.len() implies #[trigger] d[k] >= 1 by {
            assert(c[k] < d[k]);
        }
        lemma_suffix_product_monotone(d, 0, i);
        assert(d.subrange(0, d.len() as int) =~= d);
    }
}

/// Unfold a trailing run of a row-major index at its head.
proof fn lemma_row_major_suffix_step(c: Seq<usize>, d: Seq<usize>, i: int)
    requires
        c.len() == d.len(),
        0 <= i < d.len(),
    ensures
        row_major(c.subrange(i, c.len() as int), d.subrange(i, d.len() as int)) == c[i] * product(
            d.subrange(i + 1, d.len() as int),
        ) + row_major(c.subrange(i + 1, c.len() as int), d.subrange(i + 1, d.len() as int)),
{
    let n = d.len() as int;
    assert(c.subrange(i, n) =~= seq![c[i]] + c.subrange(i + 1, n));
    assert(d.subrange(i, n) =~= seq![d[i]] + d.subrange(i + 1, n));
    lemma_row_major_prepend(c[i], d[i], c.subrange(i + 1, n), d.subrange(i + 1, n));
}

/// Partial sums of `dot` never decrease.
proof fn lemma_dot_take_monotone(c: Seq<usize>, s: Seq<usize>, i: int, j: int)
    requires
        c.len() <= s.len(),
        0 <= i <= j <= c.len(),
    ensures
        dot(c.take(i), s.take(i)) <= dot(c.take(j), s.take(j)),
    decreases j - i,
{
    if i < j {
        lemma_dot_take_monotone(c, s, i, j - 1);
        assert(c.take(j).drop_last() =~= c.take(j - 1));
        assert(s.take(j).drop_last() =~= s.take(j - 1));
        let x = c[j - 1] as int;
        let y = s[j - 1] as int;
        assert(x * y >= 0) by (nonlinear_arith)
            requires
                x >= 0,
                y >= 0,
        ;
    }
}

// ─────────────────────────────────────────────────────────────────────
// Indexing
// ─────────────────────────────────────────────────────────────────────

/// Bit pattern of `1.0f32`.
pub const F32_ONE_BITS: u32 = 0x3f80_0000;

impl TensorSpec {
    /// Row-major flat index of N-D coordinates. `None` when the arity
    /// differs from the rank, a coordinate is out of range, or the
    /// shape's element count overflows `usize`.
    pub fn flat_index(&self, coords: &[usize]) -> (r: Option<usize>)
        ensures
            r == flat_index_spec(coords@, self.dims@),
    {
        let n = self.dims.len();
        if coords.len() != n {
            return None;
        }
        let ghost c = coords@;
        let ghost d = self.dims@;
        let mut idx: usize = 0;
        let mut stride: usize = 1;
        let mut i: usize = n;
        assert(c.subrange(n as int, n as int) =~= Seq::<usize>::empty());
        assert(d.subrange(n as int, n as int) =~= Seq::<usize>::empty());
        while i > 0
            invariant
                c == coords@,
                d == self.dims@,
                n == d.len(),
                c.len() == n,
                i <= n,
                idx == row_major(c.subrange(i as int, n as int), d.subrange(i as int, n as int)),
                stride == product(d.subrange(i as int, n as int)),
                forall|j: int| i <= j < n ==> #[trigger] c[j] < d[j],
            decreases i,
        {
            let k = i - 1;
            if coords[k] >= self.dims[k] {
                return None;
            }
            proof {
                lemma_row_major_suffix_step(c, d, k as int);
                lemma_product_suffix_step(d, k as int);
                lemma_product_nonneg(d.subrange(i as int, n as int));
                let cs = c.subrange(i as int, n as int);
                let ds = d.subrange(i as int, n as int);
                assert(in_bounds(cs, ds)) by {
                    assert forall|j: int| 0 <= j < cs.len() implies #[trigger] cs[j] < ds[j] by {
                        assert(c[i + j] < d[i + j]);
                    }
                }
                lemma_row_major_bound(cs, ds);
            }
            let term = match coords[k].checked_mul(stride) {
                Some(t) => t,
                None => {
                    proof {
                        let x = c[k as int] as int;
                        let y = d[k as int] as int;
                        let p = stride as int;
                        assert(y * p >= x * p) by (nonlinear_arith)
                            requires
                                x < y,
                                p >= 0,
                        ;
                        lemma_suffix_overflow_excludes(c, d, k as int);
                    }
                    return None;
                },
            };
            idx = match idx.checked_add(term) {
                Some(v) => v,
                None => {
                    proof {
                        let x = c[k as int] as int;
                        let y = d[k as int] as int;
                        let p = stride as int;
                        assert(y * p >= x * p + p) by (nonlinear_arith)
                            requires
                                x < y,
                                p >= 0,
                        ;
                        lemma_suffix_overflow_excludes(c, d, k as int);
                    }
                    return None;
                },
            };
            stride = match stride.checked_mul(self.dims[k]) {
                Some(v) => v,
                None => {
                    proof {
                        assert(stride * self.dims[k as int] == self.dims[k as int] * stride);
                        lemma_suffix_overflow_excludes(c, d, k as int);
                    }
                    return None;
                },
            };
            proof {
                assert(stride == d[k as int] * product(d.subrange(i as int, n as int)));
            }
            i = k;
        }
        assert(c.subrange(0, n as int) =~= c);
        assert(d.subrange(0, n as int) =~= d);
        Some(idx)
    }

    /// Row-major strides in elements (the last is 1). `None` when a
    /// trailing product overflows `usize`.
    pub fn strides(&self) -> (r: Option<Vec<usize>>)
        ensures
            r is Some <==> suffix_products_fit(self.dims@),
            r matches Some(s) ==> s@.len() == self.dims@.len() && forall|i: int|
                0 <= i < s@.len() ==> s@[i] == #[trigger] row_major_strides(self.dims@)[i],
    {
        let n = self.dims.len();
        let ghost d = self.dims@;
        if n == 0 {
            assert forall|i: int| 1 <= i <= d.len() implies product(
                #[trigger] d.subrange(i, d.len() as int),
            ) <= usize::MAX by {
                assert(d.subrange(i, d.len() as int) =~= Seq::<usize>::empty());
            }
            return Some(Vec::new());
        }
        let mut s: Vec<usize> = Vec::new();
        while s.len() < n
            invariant
                s.len() <= n,
                forall|j: int| 0 <= j < s.len() ==> s@[j] == 1,
            decreases n - s.len(),
        {
            s.push(1);
        }
        let mut i: usize = n - 1;
        assert(d.subrange(n as int, n as int) =~= Seq::<usize>::empty());
        assert(d.subrange(n as int - 1, n as int) =~= seq![d[n as int - 1]]);
        assert(product(seq![d[n as int - 1]]) == product(Seq::<usize>::empty()) * d[n as int - 1]) by {
            assert(seq![d[n as int - 1]].drop_last() =~= Seq::<usize>::empty());
        }
        while i > 0
            invariant
                d == self.dims@,
                n == d.len(),
                n >= 1,
                1 <= i + 1 <= n,
                s.len() == n,
                forall|j: int| i <= j < n ==> #[trigger] s@[j] == product(d.subrange(j + 1, n as int)),
                forall|j: int| i + 1 <= j <= n ==> product(#[trigger] d.subrange(j, n as int)) <= usize::MAX,
            decreases i,
        {
            proof {
                lemma_product_suffix_step(d, i as int);
            }
            match s[i].checked_mul(self.dims[i]) {
                Some(v) => {
                    proof {
                        assert(s@[i as int] * d[i as int] == d[i as int] * s@[i as int]) by (nonlinear_arith);
                        assert(v == product(d.subrange(i as int, n as int)));
                    }
                    s.set(i - 1, v);
                    i = i - 1;
                },
                None => {
                    proof {
                        assert(s@[i as int] * d[i as int] == d[i as int] * s@[i as int]) by (nonlinear_arith);
                        assert(product(d.subrange(i as int, n as int)) > usize::MAX);
                    }
                    return None;
                },
            }
        }
        proof {
            assert forall|j: int| 1 <= j <= d.len() implies product(#[trigger] d.subrange(j, d.len() as int))
                <= usize::MAX by {}
            assert forall|j: int| 0 <= j < s@.len() implies s@[j] == #[trigger] row_major_strides(d)[j] by {}
        }
        Some(s)
    }

    /// Read element `flat` undecoded. `None` when the data is not
    /// resident or the index is out of range.
    pub fn read_element(&self, flat: usize) -> (r: Option<TensorElement>)
        ensures
            r == (match self.data {
                TensorRef::InlineF32 { bits } => if flat < bits.len() {
                    Some(TensorElement::F32Bits(bits@[flat as int]))
                } else {
                    None::<TensorElement>
                },
                TensorRef::InlineU8 { data } => if flat < data.len() {
                    Some(TensorElement::U8(data@[flat as int]))
                } else {
                    None::<TensorElement>
                },
                _ => None::<TensorElement>,
            }),
    {
        match &self.data {
            TensorRef::InlineF32 { bits } => {
                if flat < bits.len() {
                    Some(TensorElement::F32Bits(bits[flat]))
                } else {
                    None
                }
            },
            TensorRef::InlineU8 { data } => {
                if flat < data.len() {
                    Some(TensorElement::U8(data[flat]))
                } else {
                    None
                }
            },
            TensorRef::External { .. } => None,
            TensorRef::Empty => None,
        }
    }

    /// `read_element` addressed by N-D coordinates.
    pub fn read_element_at(&self, coords: &[usize]) -> (r: Option<TensorElement>)
        ensures
            !(in_bounds(coords@, self.dims@) && product(self.dims@) <= usize::MAX) ==> r is None,
            in_bounds(coords@, self.dims@) && product(self.dims@) <= usize::MAX ==> r == (match self.data {
                TensorRef::InlineF32 { bits } => if row_major(coords@, self.dims@) < bits.len() {
                    Some(TensorElement::F32Bits(bits@[row_major(coords@, self.dims@)]))
                } else {
                    None::<TensorElement>
                },
                TensorRef::InlineU8 { data } => if row_major(coords@, self.dims@) < data.len() {
                    Some(TensorElement::U8(data@[row_major(coords@, self.dims@)]))
                } else {
                    None::<TensorElement>
                },
                _ => None::<TensorElement>,
            }),
    {
        proof {
            if in_bounds(coords@, self.dims@) {
                lemma_row_major_bound(coords@, self.dims@);
            }
        }
        match self.flat_index(coords) {
            Some(i) => self.read_element(i),
            None => None,
        }
    }

    /// Dense `f32` zeros of the given shape.
    pub fn zeros_f32(dims: Vec<usize>) -> (s: Self)
        requires
            prefix_products_fit(dims@),
        ensures
            s.dims == dims,
            s.dtype == TensorDType::F32,
            s.label is None,
            s.data matches TensorRef::InlineF32 { bits } && bits@.len() == product(dims@) && forall|k: int|
                0 <= k < bits@.len() ==> bits@[k] == 0,
    {
        let n = match checked_product(&dims) {
            Some(n) => n,
            None => 0,
        };
        let mut bits: Vec<u32> = Vec::new();
        while bits.len() < n
            invariant
                bits.len() <= n,
                forall|k: int| 0 <= k < bits@.len() ==> bits@[k] == 0,
            decreases n - bits.len(),
        {
            bits.push(0);
        }
        TensorSpec::new(dims, TensorDType::F32, TensorRef::InlineF32 { bits })
    }

    /// `n × n` identity matrix in `f32`.
    pub fn eye_f32(n: usize) -> (s: Self)
        requires
            n * n <= usize::MAX,
        ensures
            s.dims@ == seq![n, n],
            s.dtype == TensorDType::F32,
            s.label is None,
            s.data matches TensorRef::InlineF32 { bits } && bits@.len() == n * n && forall|r: int, c: int|
                0 <= r < n && 0 <= c < n ==> #[trigger] bits@[r * n + c] == (if r == c {
                    F32_ONE_BITS
                } else {
                    0u32
                }),
    {
        let total = n * n;
        let mut bits: Vec<u32> = Vec::new();
        let mut r: usize = 0;
        while r < n
            invariant
                r <= n,
                total == n * n,
                bits@.len() == r * n,
                forall|a: int, b: int|
                    0 <= a < r && 0 <= b < n ==> #[trigger] bits@[a * n + b] == (if a == b {
                        F32_ONE_BITS
                    } else {
                        0u32
                    }),
            decreases n - r,
        {
            let mut c: usize = 0;
            proof {
                assert(r * n + n <= n * n) by (nonlinear_arith)
                    requires
                        r < n,
                ;
            }
            while c < n
                invariant
                    r < n,
                    c <= n,
                    r * n + n <= n * n,
                    bits@.len() == r * n + c,
                    forall|a: int, b: int|
                        0 <= a < r && 0 <= b < n ==> #[trigger] bits@[a * n + b] == (if a == b {
                            F32_ONE_BITS
                        } else {
                            0u32
                        }),
                    forall|b: int| 0 <= b < c ==> #[trigger] bits@[r * n + b] == (if r == b {
                        F32_ONE_BITS
                    } else {
                        0u32
                    }),
                decreases n - c,
            {
                let ghost before = bits@;
                if r == c {
                    bits.push(F32_ONE_BITS);
                } else {
                    bits.push(0);
                }
                proof {
                    assert forall|a: int, b: int|
                        0 <= a < r && 0 <= b < n implies #[trigger] bits@[a * n + b] == (if a == b {
                        F32_ONE_BITS
                    } else {
                        0u32
                    }) by {
                        assert(a * n + b < r * n) by (nonlinear_arith)
                            requires
                                0 <= a < r,
                                0 <= b < n,
                        ;
                        assert(bits@[a * n + b] == before[a * n + b]);
                    }
                }
                c = c + 1;
            }
            proof {
                assert((r + 1) * n == r * n + n) by (nonlinear_arith);
                assert forall|a: int, b: int|
                    0 <= a < r + 1 && 0 <= b < n implies #[trigger] bits@[a * n + b] == (if a == b {
                    F32_ONE_BITS
                } else {
                    0u32
                }) by {
                    if a == r {
                        assert(bits@[r * n + b] == (if r == b {
                            F32_ONE_BITS
                        } else {
                            0u32
                        }));
                    }
                }
            }
            r = r + 1;
        }
        let mut dims: Vec<usize> = Vec::new();
        dims.push(n);
        dims.push(n);
        proof {
            assert(dims@ =~= seq![n, n]);
        }
        TensorSpec::new(dims, TensorDType::F32, TensorRef::InlineF32 { bits })
    }
}

// ─────────────────────────────────────────────────────────────────────
// Slicing
// ─────────────────────────────────────────────────────────────────────

/// Pin of one axis to one index.
#[derive(Debug, Clone, Copy, PartialEq, Eq, Structural)]
pub struct SliceAxisPin {
    pub axis: usize,
    pub index: usize,
}

/// Declarative slice request: every pin fixes one axis; the result
/// keeps only the unpinned axes.
#[derive(Debug, Clone, PartialEq)]
pub struct TensorSlice {
    pub pins: Vec<SliceAxisPin>,
}

/// What a renderer needs to walk a sliced view: the remaining shape,
/// the parent strides of those axes, and the parent flat offset of the
/// slice's origin.
#[derive(Debug, Clone, PartialEq)]
pub struct TensorSliceProjection {
    pub sub_dims: Vec<usize>,
    pub sub_strides: Vec<usize>,
    pub offset: usize,
}

pub open spec fn pin_ok(p: SliceAxisPin, d: Seq<usize>) -> bool {
    p.axis < d.len() && p.index < d[p.axis as int]
}

pub open spec fn pin_error(p: SliceAxisPin, d: Seq<usize>) -> TensorError {
    if p.axis >= d.len() {
        TensorError::SliceAxisOob { axis: p.axis, rank: d.len() as usize }
    } else {
        TensorError::SliceIndexOob { index: p.index, size: d[p.axis as int] }
    }
}

/// The error of the first invalid pin at position `k` or later.
pub open spec fn first_pin_error(pins: Seq<SliceAxisPin>, d: Seq<usize>, k: int) -> Option<TensorError>
    decreases pins.len() - k,
{
    if k < 0 || k >= pins.len() {
        None
    } else if !pin_ok(pins[k], d) {
        Some(pin_error(pins[k], d))
    } else {
        first_pin_error(pins, d, k + 1)
    }
}

/// `Σ index * stride(axis)` over the pins.
pub open spec fn pin_offset(pins: Seq<SliceAxisPin>, d: Seq<usize>) -> int
    decreases pins.len(),
{
    if pins.len() == 0 {
        0
    } else {
        pin_offset(pins.drop_last(), d) + pins.last().index * row_major_strides(d)[pins.last().axis as int]
    }
}

pub open spec fn is_pinned(pins: Seq<SliceAxisPin>, a: int) -> bool {
    exists|k: int| 0 <= k < pins.len() && #[trigger] pins[k].axis == a
}

/// The axes below `n` that no pin fixes, ascending.
pub open spec fn unpinned_axes(pins: Seq<SliceAxisPin>, n: int) -> Seq<int>
    decreases n,
{
    if n <= 0 {
        Seq::empty()
    } else if is_pinned(pins, n - 1) {
        unpinned_axes(pins, n - 1)
    } else {
        unpinned_axes(pins, n - 1).push(n - 1)
    }
}

pub proof fn lemma_unpinned_axes_bounds(pins: Seq<SliceAxisPin>, n: int)
    ensures
        forall|i: int| 0 <= i < unpinned_axes(pins, n).len() ==> 0 <= #[trigger] unpinned_axes(pins, n)[i] < n,
        unpinned_axes(pins, n).len() <= if n < 0 { 0 } else { n },
    decreases n,
{
    if n > 0 {
        lemma_unpinned_axes_bounds(pins, n - 1);
    }
}

/// The flat index in the parent of slice coordinates `sub`: the
/// offset plus their dot product with the strides; none when `sub` is
/// out of the slice's bounds or the index exceeds `usize`.
pub open spec fn in_parent_spec(p: TensorSliceProjection, sub: Seq<usize>) -> Option<usize> {
    if in_bounds(sub, p.sub_dims@) && p.offset + dot(sub, p.sub_strides@.take(sub.len() as int)) <= usize::MAX {
        Some((p.offset + dot(sub, p.sub_strides@.take(sub.len() as int))) as usize)
    } else {
        None
    }
}

/// The projection `project` owes for a parent shape `d` and pins.
pub open spec fn projection_matches(p: TensorSliceProjection, pins: Seq<SliceAxisPin>, d: Seq<usize>) -> bool {
    let ax = unpinned_axes(pins, d.len() as int);
    &&& p.offset == pin_offset(pins, d)
    &&& p.sub_dims@.len() == ax.len()
    &&& p.sub_strides@.len() == ax.len()
    &&& forall|i: int| 0 <= i < ax.len() ==> p.sub_dims@[i] == d[#[trigger] ax[i]]
    &&& forall|i: int| 0 <= i < ax.len() ==> p.sub_strides@[i] == row_major_strides(d)[#[trigger] ax[i]]
}

proof fn lemma_pin_offset_take_monotone(pins: Seq<SliceAxisPin>, d: Seq<usize>, i: int, j: int)
    requires
        0 <= i <= j <= pins.len(),
        forall|k: int| 0 <= k < pins.len() ==> pin_ok(#[trigger] pins[k], d),
    ensures
        pin_offset(pins.take(i), d) <= pin_offset(pins.take(j), d),
    decreases j - i,
{
    if i < j {
        lemma_pin_offset_take_monotone(pins, d, i, j - 1);
        assert(pins.take(j).drop_last() =~= pins.take(j - 1));
        let p = pins[j - 1];
        assert(pin_ok(p, d));
        let a = p.axis as int;
        lemma_product_nonneg(d.subrange(a + 1, d.len() as int));
        let x = p.index as int;
        let y = row_major_strides(d)[a];
        assert(x * y >= 0) by (nonlinear_arith)
            requires
                x >= 0,
                y >= 0,
        ;
    }
}

fn axis_is_pinned(pins: &Vec<SliceAxisPin>, axis: usize) -> (b: bool)
    ensures
        b == is_pinned(pins@, axis as int),
{
    let mut k: usize = 0;
    while k < pins.len()
        invariant
            k <= pins.len(),
            forall|j: int| 0 <= j < k ==> #[trigger] pins@[j].axis != axis,
        decreases pins.len() - k,
    {
        if pins[k].axis == axis {
            return true;
        }
        k = k + 1;
    }
    false
}

impl TensorSlice {
    pub fn new() -> (s: Self)
        ensures
            s.pins@.len() == 0,
    {
        TensorSlice { pins: Vec::new() }
    }

    /// Add one pin.
    pub fn pin(self, axis: usize, index: usize) -> (s: Self)
        ensures
            s.pins@ == self.pins@.push(SliceAxisPin { axis, index }),
    {
        let mut pins = self.pins;
        pins.push(SliceAxisPin { axis, index });
        TensorSlice { pins }
    }

    /// Project the slice onto `parent`: validates every pin (the first
    /// invalid one is reported), then computes the remaining shape, the
    /// parent strides of the remaining axes, and the flat offset.
    pub fn project(&self, parent: &TensorSpec) -> (r: Result<TensorSliceProjection, TensorError>)
        ensures
            match first_pin_error(self.pins@, parent.dims@, 0) {
                Some(e) => r == Err::<TensorSliceProjection, TensorError>(e),
                None => if !suffix_products_fit(parent.dims@) || pin_offset(self.pins@, parent.dims@)
                    > usize::MAX {
                    r == Err::<TensorSliceProjection, TensorError>(TensorError::ShapeOverflow)
                } else {
                    r matches Ok(p) && projection_matches(p, self.pins@, parent.dims@)
                },
            },
    {
        let ghost pins = self.pins@;
        let ghost d = parent.dims@;
        let n = parent.dims.len();
        let mut k: usize = 0;
        while k < self.pins.len()
            invariant
                pins == self.pins@,
                d == parent.dims@,
                n == d.len(),
                k <= pins.len(),
                first_pin_error(pins, d, 0) == first_pin_error(pins, d, k as int),
                forall|j: int| 0 <= j < k ==> pin_ok(#[trigger] pins[j], d),
            decreases pins.len() - k,
        {
            let pin = self.pins[k];
            if pin.axis >= n {
                return Err(TensorError::SliceAxisOob { axis: pin.axis, rank: n });
            }
            let size = parent.dims[pin.axis];
            if pin.index >= size {
                return Err(TensorError::SliceIndexOob { index: pin.index, size });
            }
            k = k + 1;
        }
        assert(first_pin_error(pins, d, pins.len() as int) == None::<TensorError>);
        let strides = match parent.strides() {
            Some(s) => s,
            None => {
                return Err(TensorError::ShapeOverflow);
            },
        };
        let mut offset: usize = 0;
        let mut k: usize = 0;
        assert(pins.take(0) =~= Seq::<SliceAxisPin>::empty());
        while k < self.pins.len()
            invariant
                pins == self.pins@,
                d == parent.dims@,
                n == d.len(),
                k <= pins.len(),
                strides@.len() == n,
                forall|i: int| 0 <= i < n ==> strides@[i] == #[trigger] row_major_strides(d)[i],
                forall|j: int| 0 <= j < pins.len() ==> pin_ok(#[trigger] pins[j], d),
                offset == pin_offset(pins.take(k as int), d),
                first_pin_error(pins, d, 0) == None::<TensorError>,
                suffix_products_fit(d),
            decreases pins.len() - k,
        {
            let pin = self.pins[k];
            assert(pin_ok(pins[k as int], d));
            assert(pins.take(k + 1).drop_last() =~= pins.take(k as int));
            assert(pins.take(k + 1).last() == pin);
            proof {
                lemma_pin_offset_take_monotone(pins, d, 0, k as int);
                assert(pins.take(0) =~= Seq::<SliceAxisPin>::empty());
                assert(pin_offset(pins.take(k + 1), d) == offset + pin.index * row_major_strides(d)[pin.axis as int]);
            }
            let term = match pin.index.checked_mul(strides[pin.axis]) {
                Some(t) => t,
                None => {
                    proof {
                        lemma_pin_offset_take_monotone(pins, d, k + 1, pins.len() as int);
                        assert(pins.take(pins.len() as int) =~= pins);
                    }
                    return Err(TensorError::ShapeOverflow);
                },
            };
            offset = match offset.checked_add(term) {
                Some(v) => v,
                None => {
                    proof {
                        lemma_pin_offset_take_monotone(pins, d, k + 1, pins.len() as int);
                        assert(pins.take(pins.len() as int) =~= pins);
                    }
                    return Err(TensorError::ShapeOverflow);
                },
            };
            k = k + 1;
        }
        assert(pins.take(pins.len() as int) =~= pins);
        let mut sub_dims: Vec<usize> = Vec::new();
        let mut sub_strides: Vec<usize> = Vec::new();
        let mut a: usize = 0;
        while a < n
            invariant
                pins == self.pins@,
                d == parent.dims@,
                n == d.len(),
                a <= n,
                first_pin_error(pins, d, 0) == None::<TensorError>,
                suffix_products_fit(d),
                offset == pin_offset(pins, d),
                strides@.len() == n,
                forall|i: int| 0 <= i < n ==> strides@[i] == #[trigger] row_major_strides(d)[i],
                sub_dims@.len() == unpinned_axes(pins, a as int).len(),
                sub_strides@.len() == unpinned_axes(pins, a as int).len(),
                forall|i: int|
                    0 <= i < unpinned_axes(pins, a as int).len() ==> sub_dims@[i] == d[#[trigger] unpinned_axes(
                        pins,
                        a as int,
                    )[i]],
                forall|i: int|
                    0 <= i < unpinned_axes(pins, a as int).len() ==> sub_strides@[i] == row_major_strides(
                        d,
                    )[#[trigger] unpinned_axes(pins, a as int)[i]],
            decreases n - a,
        {
            if !axis_is_pinned(&self.pins, a) {
                sub_dims.push(parent.dims[a]);
                sub_strides.push(strides[a]);
            }
            assert(unpinned_axes(pins, a + 1) == if is_pinned(pins, a as int) {
                unpinned_axes(pins, a as int)
            } else {
                unpinned_axes(pins, a as int).push(a as int)
            });
            a = a + 1;
        }
        Ok(TensorSliceProjection { sub_dims, sub_strides, offset })
    }
}

impl TensorSliceProjection {
    /// Map coordinates of the sliced shape to a flat index in the parent.
    pub fn flat_index_in_parent(&self, sub_coords: &[usize]) -> (r: Option<usize>)
        requires
            self.sub_strides@.len() >= self.sub_dims@.len(),
        ensures
            r == in_parent_spec(*self, sub_coords@),
    {
        let n = self.sub_dims.len();
        if sub_coords.len() != n {
            return None;
        }
        let ghost c = sub_coords@;
        let ghost s = self.sub_strides@;
        let mut idx: usize = self.offset;
        let mut i: usize = 0;
        assert(c.take(0) =~= Seq::<usize>::empty());
        assert(s.take(0) =~= Seq::<usize>::empty());
        while i < n
            invariant
                c == sub_coords@,
                s == self.sub_strides@,
                n == self.sub_dims@.len(),
                c.len() == n,
                s.len() >= n,
                i <= n,
                idx == self.offset + dot(c.take(i as int), s.take(i as int)),
                forall|j: int| 0 <= j < i ==> #[trigger] c[j] < self.sub_dims@[j],
            decreases n - i,
        {
            if sub_coords[i] >= self.sub_dims[i] {
                return None;
            }
            assert(c.take(i + 1).drop_last() =~= c.take(i as int));
            assert(s.take(i + 1).drop_last() =~= s.take(i as int));
            assert(c.take(n as int) =~= c);
            let term = match sub_coords[i].checked_mul(self.sub_strides[i]) {
                Some(t) => t,
                None => {
                    proof {
                        lemma_dot_take_monotone(c, s.take(n as int), i + 1, n as int);
                        assert(s.take(n as int).take(i + 1) =~= s.take(i + 1));
                        assert(s.take(n as int).take(n as int) =~= s.take(n as int));
                        lemma_dot_take_monotone(c, s.take(n as int), 0, i as int);
                        assert(s.take(n as int).take(i as int) =~= s.take(i as int));
                    }
                    return None;
                },
            };
            idx = match idx.checked_add(term) {
                Some(v) => v,
                None => {
                    proof {
                        lemma_dot_take_monotone(c, s.take(n as int), i + 1, n as int);
                        assert(s.take(n as int).take(i + 1) =~= s.take(i + 1));
                        assert(s.take(n as int).take(n as int) =~= s.take(n as int));
                    }
                    return None;
                },
            };
            i = i + 1;
        }
        assert(c.take(n as int) =~= c);
        Some(idx)
    }

    /// Element count of the sliced shape; `None` on overflow.
    pub fn element_count(&self) -> (r: Option<usize>)
        ensures
            r == (if prefix_products_fit(self.sub_dims@) {
                Some(product(self.sub_dims@) as usize)
            } else {
                None::<usize>
            }),
    {
        checked_product(&self.sub_dims)
    }
}

// ─────────────────────────────────────────────────────────────────────
// Row-major odometer
// ─────────────────────────────────────────────────────────────────────

/// The rightmost position below `m` that can be incremented without
/// wrapping, or -1 when every position wraps.
pub open spec fn carry_pos(c: Seq<usize>, d: Seq<usize>, m: int) -> int
    decreases m,
{
    if m <= 0 {
        -1
    } else if c[m - 1] + 1 < d[m - 1] {
        m - 1
    } else {
        carry_pos(c, d, m - 1)
    }
}

/// One odometer step: increment the carry position, zero everything to
/// its right (everything, when no position can be incremented).
pub open spec fn odometer_step(c: Seq<usize>, d: Seq<usize>) -> Seq<usize> {
    let k = carry_pos(c, d, c.len() as int);
    Seq::new(c.len(), |j: int| if j < k { c[j] } else if j == k { (c[j] + 1) as usize } else { 0usize })
}

/// Advance row-major coordinates over `dims` in place ("carry from the
/// right"). Returns `false` once the coordinates wrapped past the last
/// cell, leaving them all zero.
pub fn next_coord(coords: &mut Vec<usize>, dims: &Vec<usize>) -> (advanced: bool)
    requires
        old(coords)@.len() == dims@.len(),
        forall|i: int| 0 <= i < old(coords)@.len() ==> #[trigger] old(coords)@[i] < usize::MAX,
    ensures
        advanced == (carry_pos(old(coords)@, dims@, dims@.len() as int) >= 0),
        final(coords)@ == odometer_step(old(coords)@, dims@),
{
    let ghost c0 = coords@;
    let ghost d = dims@;
    let n = coords.len();
    let mut i: usize = n;
    while i > 0
        invariant
            c0 == old(coords)@,
            d == dims@,
            n == d.len(),
            c0.len() == n,
            coords@.len() == n,
            i <= n,
            forall|j: int| 0 <= j < i ==> #[trigger] coords@[j] == c0[j],
            forall|j: int| i <= j < n ==> #[trigger] coords@[j] == 0,
            forall|j: int| 0 <= j < n ==> #[trigger] c0[j] < usize::MAX,
            carry_pos(c0, d, n as int) == carry_pos(c0, d, i as int),
        decreases i,
    {
        let k = i - 1;
        let v = coords[k] + 1;
        if v < dims[k] {
            assert(carry_pos(c0, d, i as int) == k as int);
            assert(coords@[k as int] == c0[k as int]);
            coords.set(k, v);
            assert forall|j: int| 0 <= j < n implies #[trigger] coords@[j] == odometer_step(c0, d)[j] by {
                if j < k {
                    assert(coords@[j] == c0[j]);
                } else if j > k {
                    assert(coords@[j] == 0);
                }
            }
            assert(coords@ =~= odometer_step(c0, d));
            return true;
        }
        coords.set(k, 0);
        i = k;
    }
    assert(coords@ =~= odometer_step(c0, d));
    false
}

proof fn lemma_carry_pos_prefix(c: Seq<usize>, d: Seq<usize>, c2: Seq<usize>, d2: Seq<usize>, m: int)
    requires
        0 <= m <= c.len(),
        m <= c2.len(),
        m <= d.len(),
        m <= d2.len(),
        forall|j: int| 0 <= j < m ==> c[j] == c2[j] && d[j] == d2[j],
    ensures
        carry_pos(c, d, m) == carry_pos(c2, d2, m),
    decreases m,
{
    if m > 0 {
        lemma_carry_pos_prefix(c, d, c2, d2, m - 1);
    }
}

proof fn lemma_carry_pos_range(c: Seq<usize>, d: Seq<usize>, m: int)
    ensures
        -1 <= carry_pos(c, d, m) < if m < 0 { 0 } else { m },
        carry_pos(c, d, m) >= 0 ==> c[carry_pos(c, d, m)] + 1 < d[carry_pos(c, d, m)],
    decreases m,
{
    if m > 0 {
        lemma_carry_pos_range(c, d, m - 1);
    }
}

/// The odometer walks row-major order: on in-bounds coordinates a step
/// that advances raises the row-major index by exactly one and stays in
/// bounds; a step that wraps happens only at the last cell.
pub proof fn lemma_odometer_step_advances(c: Seq<usize>, d: Seq<usize>)
    requires
        in_bounds(c, d),
    ensures
        carry_pos(c, d, c.len() as int) >= 0 ==> in_bounds(odometer_step(c, d), d) && row_major(
            odometer_step(c, d),
            d,
        ) == row_major(c, d) + 1,
        carry_pos(c, d, c.len() as int) < 0 ==> row_major(c, d) == product(d) - 1 && forall|j: int|
            0 <= j < c.len() ==> #[trigger] odometer_step(c, d)[j] == 0,
    decreases c.len(),
{
    let n = c.len() as int;
    let k = carry_pos(c, d, n);
    lemma_carry_pos_range(c, d, n);
    if n == 0 {
        return;
    }
    let c1 = c.drop_last();
    let d1 = d.drop_last();
    let x = c.last() as int;
    let y = d.last() as int;
    assert(c[n - 1] < d[n - 1]);
    assert(in_bounds(c1, d1)) by {
        assert forall|i: int| 0 <= i < c1.len() implies #[trigger] c1[i] < d1[i] by {
            assert(c[i] < d[i]);
        }
    }
    let s = odometer_step(c, d);
    if x + 1 < y {
        assert(k == n - 1);
        assert(s.drop_last() =~= c1);
        assert(s.last() == x + 1);
        assert(in_bounds(s, d)) by {
            assert forall|i: int| 0 <= i < s.len() implies #[trigger] s[i] < d[i] by {
                if i < n - 1 {
                    assert(c[i] < d[i]);
                }
            }
        }
    } else {
        assert(x == y - 1);
        lemma_carry_pos_prefix(c, d, c1, d1, n - 1);
        assert(k == carry_pos(c1, d1, n - 1));
        lemma_odometer_step_advances(c1, d1);
        let s1 = odometer_step(c1, d1);
        let r1 = row_major(c1, d1);
        if k >= 0 {
            assert(s.drop_last() =~= s1);
            assert(s.last() == 0);
            assert(row_major(s, d) == row_major(s1, d1) * y + 0);
            assert((r1 + 1) * y == r1 * y + x + 1) by (nonlinear_arith)
                requires
                    x == y - 1,
            ;
            assert(in_bounds(s, d)) by {
                assert forall|i: int| 0 <= i < s.len() implies #[trigger] s[i] < d[i] by {
                    if i < n - 1 {
                        assert(s[i] == s1[i]);
                    }
                }
            }
        } else {
            let p1 = product(d1);
            assert((p1 - 1) * y + x == p1 * y - 1) by (nonlinear_arith)
                requires
                    x == y - 1,
            ;
        }
    }
}

// ─────────────────────────────────────────────────────────────────────
// Slices address their parent
// ─────────────────────────────────────────────────────────────────────

/// `Σ_{a < m} f(a)`.
pub open spec fn sum_below(m: int, f: spec_fn(int) -> int) -> int
    decreases m,
{
    if m <= 0 {
        0
    } else {
        sum_below(m - 1, f) + f(m - 1)
    }
}

proof fn lemma_sum_below_ext(m: int, f: spec_fn(int) -> int, g: spec_fn(int) -> int)
    requires
        forall|a: int| 0 <= a < m ==> #[trigger] f(a) == g(a),
    ensures
        sum_below(m, f) == sum_below(m, g),
    decreases m,
{
    if m > 0 {
        lemma_sum_below_ext(m - 1, f, g);
    }
}

proof fn lemma_sum_below_add(m: int, f: spec_fn(int) -> int, g: spec_fn(int) -> int)
    ensures
        sum_below(m, |a: int| f(a) + g(a)) == sum_below(m, f) + sum_below(m, g),
    decreases m,
{
    if m > 0 {
        lemma_sum_below_add(m - 1, f, g);
    }
}

proof fn lemma_sum_below_scale(m: int, k: int, f: spec_fn(int) -> int)
    ensures
        sum_below(m, |a: int| k * f(a)) == k * sum_below(m, f),
    decreases m,
{
    if m > 0 {
        lemma_sum_below_scale(m - 1, k, f);
        let s = sum_below(m - 1, f);
        let v = f(m - 1);
        assert(k * s + k * v == k * (s + v)) by (nonlinear_arith);
    }
}

proof fn lemma_dot_as_sum(c: Seq<usize>, s: Seq<usize>, m: int)
    requires
        0 <= m <= c.len(),
        m <= s.len(),
    ensures
        dot(c.take(m), s.take(m)) == sum_below(m, |a: int| c[a] * s[a]),
    decreases m,
{
    if m > 0 {
        lemma_dot_as_sum(c, s, m - 1);
        assert(c.take(m).drop_last() =~= c.take(m - 1));
        assert(s.take(m).drop_last() =~= s.take(m - 1));
    }
}

/// A row-major index is the dot product with the row-major strides.
pub proof fn lemma_row_major_is_strided_sum(c: Seq<usize>, d: Seq<usize>)
    requires
        c.len() == d.len(),
    ensures
        row_major(c, d) == sum_below(c.len() as int, |a: int| c[a] * row_major_strides(d)[a]),
    decreases c.len(),
{
    let n = c.len() as int;
    if n > 0 {
        let c1 = c.drop_last();
        let d1 = d.drop_last();
        let y = d.last() as int;
        lemma_row_major_is_strided_sum(c1, d1);
        let f = |a: int| c[a] * row_major_strides(d)[a];
        let g = |a: int| c1[a] * row_major_strides(d1)[a];
        assert forall|a: int| 0 <= a < n - 1 implies #[trigger] f(a) == y * g(a) by {
            assert(d.subrange(a + 1, n).drop_last() =~= d1.subrange(a + 1, n - 1));
            assert(d.subrange(a + 1, n).last() == y);
            let p = product(d1.subrange(a + 1, n - 1));
            let ca = c[a] as int;
            assert(ca * (p * y) == y * (ca * p)) by (nonlinear_arith);
        }
        lemma_sum_below_ext(n - 1, f, |a: int| y * g(a));
        lemma_sum_below_scale(n - 1, y, g);
        assert(d.subrange(n, n) =~= Seq::<usize>::empty());
        let r1 = row_major(c1, d1);
        assert(r1 * y == y * r1) by (nonlinear_arith);
    }
}

/// Index of the pin (last one wins) fixing axis `a`.
pub open spec fn pin_index_of(pins: Seq<SliceAxisPin>, a: int) -> usize
    decreases pins.len(),
{
    if pins.len() == 0 {
        0
    } else if pins.last().axis == a {
        pins.last().index
    } else {
        pin_index_of(pins.drop_last(), a)
    }
}

/// No two pins fix the same axis.
pub open spec fn distinct_pin_axes(pins: Seq<SliceAxisPin>) -> bool {
    forall|i: int, j: int| 0 <= i < j < pins.len() ==> #[trigger] pins[i].axis != #[trigger] pins[j].axis
}

/// Parent coordinates of a slice cell: pinned axes take their pin's
/// index, the `r`-th unpinned axis takes `sub[r]`.
pub open spec fn parent_coords(pins: Seq<SliceAxisPin>, sub: Seq<usize>, n: int) -> Seq<usize> {
    Seq::new(
        n as nat,
        |a: int|
            if is_pinned(pins, a) {
                pin_index_of(pins, a)
            } else {
                sub[unpinned_axes(pins, a).len() as int]
            },
    )
}

spec fn pinned_term(pins: Seq<SliceAxisPin>, d: Seq<usize>, a: int) -> int {
    if is_pinned(pins, a) {
        pin_index_of(pins, a) * row_major_strides(d)[a]
    } else {
        0
    }
}

proof fn lemma_pin_offset_by_axis(pins: Seq<SliceAxisPin>, d: Seq<usize>)
    requires
        distinct_pin_axes(pins),
        forall|k: int| 0 <= k < pins.len() ==> pin_ok(#[trigger] pins[k], d),
    ensures
        pin_offset(pins, d) == sum_below(d.len() as int, |a: int| pinned_term(pins, d, a)),
    decreases pins.len(),
{
    let n = d.len() as int;
    if pins.len() == 0 {
        lemma_sum_below_ext(n, |a: int| pinned_term(pins, d, a), |a: int| 0int);
        lemma_sum_below_zero(n);
    } else {
        let p1 = pins.drop_last();
        let p = pins.last();
        let a0 = p.axis as int;
        assert(distinct_pin_axes(p1)) by {
            assert forall|i: int, j: int| 0 <= i < j < p1.len() implies #[trigger] p1[i].axis
                != #[trigger] p1[j].axis by {
                assert(pins[i].axis != pins[j].axis);
            }
        }
        assert forall|k: int| 0 <= k < p1.len() implies pin_ok(#[trigger] p1[k], d) by {
            assert(pin_ok(pins[k], d));
        }
        assert(pin_ok(pins[pins.len() - 1], d));
        lemma_pin_offset_by_axis(p1, d);
        assert(!is_pinned(p1, a0)) by {
            if is_pinned(p1, a0) {
                let k = choose|k: int| 0 <= k < p1.len() && #[trigger] p1[k].axis == a0;
                assert(pins[k].axis != pins[pins.len() - 1].axis);
            }
        }
        let f = |a: int| pinned_term(pins, d, a);
        let g = |a: int| pinned_term(p1, d, a);
        let h = |a: int| if a == a0 { p.index * row_major_strides(d)[a0] } else { 0int };
        assert forall|a: int| 0 <= a < n implies #[trigger] f(a) == g(a) + h(a) by {
            if a == a0 {
                assert(pins[pins.len() - 1].axis == a0);
                assert(is_pinned(pins, a0));
            } else {
                if is_pinned(pins, a) {
                    let k = choose|k: int| 0 <= k < pins.len() && #[trigger] pins[k].axis == a;
                    assert(k < p1.len());
                    assert(p1[k].axis == a);
                }
                if is_pinned(p1, a) {
                    let k = choose|k: int| 0 <= k < p1.len() && #[trigger] p1[k].axis == a;
                    assert(pins[k].axis == a);
                }
            }
        }
        lemma_sum_below_ext(n, f, |a: int| g(a) + h(a));
        lemma_sum_below_add(n, g, h);
        lemma_sum_below_single(n, a0, p.index * row_major_strides(d)[a0]);
        lemma_sum_below_ext(n, h, |a: int| if a == a0 { p.index * row_major_strides(d)[a0] } else { 0int });
    }
}

proof fn lemma_sum_below_zero(m: int)
    ensures
        sum_below(m, |a: int| 0int) == 0,
    decreases m,
{
    if m > 0 {
        lemma_sum_below_zero(m - 1);
    }
}

proof fn lemma_sum_below_single(m: int, a0: int, v: int)
    requires
        0 <= a0 < m,
    ensures
        sum_below(m, |a: int| if a == a0 { v } else { 0int }) == v,
    decreases m,
{
    let f = |a: int| if a == a0 { v } else { 0int };
    if m - 1 == a0 {
        lemma_sum_below_ext(m - 1, f, |a: int| 0int);
        lemma_sum_below_zero(m - 1);
    } else {
        lemma_sum_below_single(m - 1, a0, v);
    }
}

proof fn lemma_unpinned_axes_prefix(pins: Seq<SliceAxisPin>, m: int, n: int)
    requires
        0 <= m <= n,
    ensures
        unpinned_axes(pins, m).len() <= unpinned_axes(pins, n).len(),
        forall|i: int| 0 <= i < unpinned_axes(pins, m).len() ==> #[trigger] unpinned_axes(pins, m)[i]
            == unpinned_axes(pins, n)[i],
    decreases n - m,
{
    if m < n {
        lemma_unpinned_axes_prefix(pins, m, n - 1);
    }
}

/// Σ over unpinned axes below `m` of `sub[rank] * stride`.
proof fn lemma_unpinned_sum(pins: Seq<SliceAxisPin>, d: Seq<usize>, sub: Seq<usize>, ss: Seq<usize>, m: int)
    requires
        0 <= m <= d.len(),
        sub.len() == unpinned_axes(pins, d.len() as int).len(),
        ss.len() == sub.len(),
        forall|i: int| 0 <= i < ss.len() ==> ss[i] == row_major_strides(d)[#[trigger] unpinned_axes(pins, d.len() as int)[i]],
    ensures
        sum_below(
            m,
            |a: int|
                if is_pinned(pins, a) {
                    0
                } else {
                    sub[unpinned_axes(pins, a).len() as int] * row_major_strides(d)[a]
                },
        ) == dot(sub.take(unpinned_axes(pins, m).len() as int), ss.take(unpinned_axes(pins, m).len() as int)),
    decreases m,
{
    let n = d.len() as int;
    lemma_unpinned_axes_prefix(pins, m, n);
    if m > 0 {
        lemma_unpinned_sum(pins, d, sub, ss, m - 1);
        lemma_unpinned_axes_prefix(pins, m - 1, n);
        let r = unpinned_axes(pins, m - 1).len() as int;
        if !is_pinned(pins, m - 1) {
            assert(unpinned_axes(pins, m) == unpinned_axes(pins, m - 1).push(m - 1));
            assert(unpinned_axes(pins, m)[r] == m - 1);
            assert(unpinned_axes(pins, n)[r] == m - 1);
            assert(ss[r] == row_major_strides(d)[m - 1]);
            assert(sub.take(r + 1).drop_last() =~= sub.take(r));
            assert(ss.take(r + 1).drop_last() =~= ss.take(r));
        }
    }
}

/// A slice cell addresses its parent: for pins on distinct, valid axes,
/// the projection's flat index of `sub` equals the parent's row-major
/// index of the merged coordinates, and those coordinates are in bounds.
pub proof fn lemma_projection_addresses_parent(
    pins: Seq<SliceAxisPin>,
    d: Seq<usize>,
    p: TensorSliceProjection,
    sub: Seq<usize>,
)
    requires
        distinct_pin_axes(pins),
        forall|k: int| 0 <= k < pins.len() ==> pin_ok(#[trigger] pins[k], d),
        projection_matches(p, pins, d),
        in_bounds(sub, p.sub_dims@),
    ensures
        in_bounds(parent_coords(pins, sub, d.len() as int), d),
        p.offset + dot(sub, p.sub_strides@) == row_major(parent_coords(pins, sub, d.len() as int), d),
{
    let n = d.len() as int;
    let ax = unpinned_axes(pins, n);
    let full = parent_coords(pins, sub, n);
    lemma_unpinned_axes_bounds(pins, n);
    // In bounds.
    assert forall|a: int| 0 <= a < n implies #[trigger] full[a] < d[a] by {
        if is_pinned(pins, a) {
            lemma_pin_index_of_valid(pins, d, a);
        } else {
            lemma_unpinned_axes_prefix(pins, a + 1, n);
            assert(unpinned_axes(pins, a + 1) == unpinned_axes(pins, a).push(a));
            let r = unpinned_axes(pins, a).len() as int;
            assert(unpinned_axes(pins, a + 1)[r] == a);
            assert(ax[r] == a);
            assert(r < ax.len());
            assert(sub.len() == p.sub_dims@.len());
            assert(sub[r] < p.sub_dims@[r]);
            assert(p.sub_dims@[r] == d[ax[r]]);
        }
    }
    // Index.
    lemma_row_major_is_strided_sum(full, d);
    let st = row_major_strides(d);
    let f = |a: int| full[a] * st[a];
    let g = |a: int| pinned_term(pins, d, a);
    let h = |a: int| if is_pinned(pins, a) { 0 } else { sub[unpinned_axes(pins, a).len() as int] * st[a] };
    assert forall|a: int| 0 <= a < n implies #[trigger] f(a) == g(a) + h(a) by {}
    lemma_sum_below_ext(n, f, |a: int| g(a) + h(a));
    lemma_sum_below_add(n, g, h);
    lemma_pin_offset_by_axis(pins, d);
    lemma_unpinned_sum(pins, d, sub, p.sub_strides@, n);
    assert(sub.take(ax.len() as int) =~= sub);
    assert(p.sub_strides@.take(ax.len() as int) =~= p.sub_strides@);
}

proof fn lemma_pin_index_of_valid(pins: Seq<SliceAxisPin>, d: Seq<usize>, a: int)
    requires
        forall|k: int| 0 <= k < pins.len() ==> pin_ok(#[trigger] pins[k], d),
        is_pinned(pins, a),
    ensures
        pin_index_of(pins, a) < d[a],
    decreases pins.len(),
{
    let k = choose|k: int| 0 <= k < pins.len() && #[trigger] pins[k].axis == a;
    assert(pin_ok(pins[pins.len() - 1], d));
    if pins.last().axis != a {
        let p1 = pins.drop_last();
        assert(p1[k].axis == a);
        assert forall|j: int| 0 <= j < p1.len() implies pin_ok(#[trigger] p1[j], d) by {
            assert(pin_ok(pins[j], d));
        }
        lemma_pin_index_of_valid(p1, d, a);
    }
}

proof fn lemma_unpinned_axes_increasing(pins: Seq<SliceAxisPin>, n: int)
    ensures
        forall|i: int, j: int|
            0 <= i < j < unpinned_axes(pins, n).len() ==> #[trigger] unpinned_axes(pins, n)[i]
                < #[trigger] unpinned_axes(pins, n)[j],
        forall|i: int| 0 <= i < unpinned_axes(pins, n).len() ==> !is_pinned(pins, #[trigger] unpinned_axes(pins, n)[i]),
    decreases n,
{
    if n > 0 {
        lemma_unpinned_axes_increasing(pins, n - 1);
        lemma_unpinned_axes_bounds(pins, n - 1);
    }
}

/// The `r`-th unpinned axis has exactly `r` unpinned axes below it.
proof fn lemma_rank_of_unpinned(pins: Seq<SliceAxisPin>, n: int, r: int)
    requires
        0 <= r < unpinned_axes(pins, n).len(),
    ensures
        0 <= unpinned_axes(pins, n)[r] < n,
        !is_pinned(pins, unpinned_axes(pins, n)[r]),
        unpinned_axes(pins, unpinned_axes(pins, n)[r]).len() == r,
{
    let ax = unpinned_axes(pins, n);
    let a = ax[r];
    lemma_unpinned_axes_bounds(pins, n);
    lemma_unpinned_axes_increasing(pins, n);
    assert(0 <= a < n);
    assert(!is_pinned(pins, a));
    lemma_unpinned_axes_prefix(pins, a + 1, n);
    let q = unpinned_axes(pins, a).len() as int;
    assert(unpinned_axes(pins, a + 1) == unpinned_axes(pins, a).push(a));
    assert(unpinned_axes(pins, a + 1)[q] == a);
    assert(ax[q] == a);
    if q < r {
        assert(ax[q] < ax[r]);
    } else if q > r {
        assert(ax[r] < ax[q]);
    }
}

/// A slice cell's flat index in the parent is the parent's flat index of
/// its full coordinates (the slice coordinates with each pinned index
/// put back on its axis): for pins on distinct, valid axes and a parent
/// whose element count fits `usize`, both are the same index, and both
/// are absent exactly when a slice coordinate is out of its bounds.
pub proof fn lemma_in_parent_is_parent_flat_index(
    pins: Seq<SliceAxisPin>,
    d: Seq<usize>,
    p: TensorSliceProjection,
    sub: Seq<usize>,
)
    requires
        distinct_pin_axes(pins),
        forall|k: int| 0 <= k < pins.len() ==> pin_ok(#[trigger] pins[k], d),
        projection_matches(p, pins, d),
        product(d) <= usize::MAX,
        sub.len() == p.sub_dims@.len(),
    ensures
        in_parent_spec(p, sub) == flat_index_spec(parent_coords(pins, sub, d.len() as int), d),
        in_parent_spec(p, sub) is None <==> exists|i: int| 0 <= i < sub.len() && #[trigger] sub[i] >= p.sub_dims@[i],
{
    let n = d.len() as int;
    let full = parent_coords(pins, sub, n);
    assert(p.sub_strides@.take(sub.len() as int) =~= p.sub_strides@);
    if in_bounds(sub, p.sub_dims@) {
        lemma_projection_addresses_parent(pins, d, p, sub);
        lemma_row_major_bound(full, d);
    } else {
        let r = choose|i: int| 0 <= i < sub.len() && !(#[trigger] sub[i] < p.sub_dims@[i]);
        assert(sub[r] >= p.sub_dims@[r]);
        let ax = unpinned_axes(pins, n);
        lemma_rank_of_unpinned(pins, n, r);
        let a = ax[r];
        assert(full[a] == sub[r]);
        assert(p.sub_dims@[r] == d[ax[r]]);
        assert(!(full[a] < d[a]));
        assert(!in_bounds(full, d));
    }
}

} // verus!
