//! Size and alignment of an allocation request.

use vstd::prelude::*;

verus! {

use vstd::arithmetic::power2::is_pow2;
use vstd::layout::valid_layout;
use crate::align::alignment::Alignment;
use crate::error::LayoutError;

/// `size` rounded up to the next multiple of `align`.
pub open spec fn padded_size(size: int, align: int) -> int {
    if size % align == 0 {
        size
    } else {
        size + (align - size % align)
    }
}

/// Padding `size` to a multiple of `align` gives a multiple of `align`, at least `size` and
/// less than `size + align`.
pub proof fn lemma_padded_multiple(size: int, align: int)
    requires
        align > 0,
        size >= 0,
    ensures
        padded_size(size, align) % align == 0,
        size <= padded_size(size, align) < size + align,
{
    let r = size % align;
    let q = size / align;
    assert(size == q * align + r) by (nonlinear_arith)
        requires align > 0, r == size % align, q == size / align;
    if r != 0 {
        assert(padded_size(size, align) == (q + 1) * align) by (nonlinear_arith)
            requires size == q * align + r, padded_size(size, align) == size + (align - r);
        assert(((q + 1) * align) % align == 0) by (nonlinear_arith)
            requires align > 0;
    }
}

/// Padding `size` to a multiple of `align` adds less than `align` bytes and never passes a
/// multiple of `align` that was already at least `size`: this is why padding a valid layout
/// gives a valid layout.
pub proof fn lemma_padded_le(size: int, align: int, bound: int)
    requires
        align > 0,
        0 <= size <= bound,
        bound % align == 0,
    ensures
        size <= padded_size(size, align) <= bound,
        padded_size(size, align) % align == 0,
        padded_size(size, align) < size + align,
{
    let r = size % align;
    let q = size / align;
    let m = bound / align;
    assert(size == q * align + r) by (nonlinear_arith)
        requires align > 0, r == size % align, q == size / align;
    assert(bound == m * align) by (nonlinear_arith)
        requires align > 0, bound % align == 0, m == bound / align;
    assert(0 <= r < align);
    if r != 0 {
        assert(q < m) by (nonlinear_arith)
            requires size == q * align + r, bound == m * align, size <= bound, r > 0, align > 0;
        assert((q + 1) * align <= m * align) by (nonlinear_arith)
            requires q + 1 <= m, align > 0;
        assert(padded_size(size, align) == (q + 1) * align) by (nonlinear_arith)
            requires size == q * align + r, padded_size(size, align) == size + (align - r);
        assert(((q + 1) * align) % align == 0) by (nonlinear_arith)
            requires align > 0;
    }
}

/// Size and alignment of an allocation: `align` is a power of 2 and `size`, once rounded up
/// to a multiple of `align`, does not exceed `isize::MAX`.
#[derive(Clone, Copy, PartialEq, Eq, Hash, Debug)]
pub struct Layout {
    size: usize,
    align: Alignment,
}

impl Layout {
    #[verifier::type_invariant]
    spec fn inv(self) -> bool {
        valid_layout(self.size, self.align.spec_bytes())
    }

    /// The requested size in bytes.
    pub closed spec fn spec_size(self) -> usize {
        self.size
    }

    /// The requested alignment in bytes.
    pub closed spec fn spec_align(self) -> usize {
        self.align.spec_bytes()
    }

    /// The requested alignment.
    pub closed spec fn spec_alignment(self) -> Alignment {
        self.align
    }

    /// Layouts of the same size and alignment are the same layout.
    pub proof fn lemma_eq(a: Layout, b: Layout)
        requires
            a.spec_size() == b.spec_size(),
            a.spec_align() == b.spec_align(),
        ensures
            a == b,
    {
        Alignment::lemma_eq_bytes(a.align, b.align);
    }

    /// Every layout meets the layout conditions.
    pub fn lemma_valid(&self)
        ensures
            valid_layout(self.spec_size(), self.spec_align()),
            self.spec_align() > 0,
            self.spec_alignment().spec_bytes() == self.spec_align(),
    {
        proof {
            use_type_invariant(self);
        }
        self.align.lemma_valid();
    }

    /// Builds a layout of `size` bytes aligned to `align`, failing unless the two form a valid layout.
    pub fn from_size_align(size: usize, align: usize) -> (r: Result<Layout, LayoutError>)
        ensures
            r is Ok <==> valid_layout(size, align),
            r matches Ok(l) ==> l.spec_size() == size && l.spec_align() == align,
    {
        match Alignment::new(align) {
            None => Err(LayoutError),
            Some(a) => Self::from_size_alignment(size, a),
        }
    }

    /// Builds a layout of `size` bytes aligned to `align`, failing unless the two form a valid layout.
    pub fn from_size_alignment(size: usize, align: Alignment) -> (r: Result<Layout, LayoutError>)
        ensures
            r is Ok <==> valid_layout(size, align.spec_bytes()),
            r matches Ok(l) ==> l.spec_size() == size && l.spec_alignment() == align,
    {
        let a = align.get();
        let imax = isize::MAX as usize;
        if size <= imax - imax % a {
            Ok(Layout { size, align })
        } else {
            Err(LayoutError)
        }
    }

    /// The requested size in bytes.
    pub fn size(&self) -> (r: usize)
        ensures
            r == self.spec_size(),
            r <= isize::MAX,
    {
        proof {
            use_type_invariant(self);
        }
        self.align.lemma_valid();
        self.size
    }

    /// The requested alignment in bytes.
    pub fn align(&self) -> (r: usize)
        ensures
            r == self.spec_align(),
            is_pow2(r as int),
            0 < r <= crate::align::alignment::max_alignment_bytes(),
    {
        self.align.get()
    }

    /// The requested alignment.
    pub fn alignment(&self) -> (r: Alignment)
        ensures
            r == self.spec_alignment(),
            r.spec_bytes() == self.spec_align(),
    {
        self.align
    }

    /// The same layout with its size rounded up to a multiple of its alignment.
    pub fn pad_to_align(&self) -> (r: Layout)
        ensures
            r.spec_size() == padded_size(self.spec_size() as int, self.spec_align() as int),
            r.spec_alignment() == self.spec_alignment(),
            r.spec_align() == self.spec_align(),
    {
        self.lemma_valid();
        let a = self.align.get();
        let imax = isize::MAX as usize;
        proof {
            assert((imax - imax % a) % (a as int) == 0) by (nonlinear_arith)
                requires a > 0;
            lemma_padded_le(self.size as int, a as int, (imax - imax % a) as int);
        }
        let rem = self.size % a;
        let size = if rem == 0 { self.size } else { self.size + (a - rem) };
        Layout { size, align: self.align }
    }

    /// The same size with the alignment raised to at least `align`; fails if `align` is not a
    /// power of 2 or the result is not a valid layout.
    pub fn align_to(&self, align: usize) -> (r: Result<Layout, LayoutError>)
        ensures
            r is Ok <==> is_pow2(align as int) && valid_layout(
                self.spec_size(),
                if align > self.spec_align() { align } else { self.spec_align() },
            ),
            r matches Ok(l) ==> l.spec_size() == self.spec_size() && l.spec_align() == (
                if align > self.spec_align() { align } else { self.spec_align() }),
    {
        match Alignment::new(align) {
            None => Err(LayoutError),
            Some(a) => {
                let wanted = if a.get() > self.align.get() { a } else { self.align };
                Self::from_size_alignment(self.size, wanted)
            }
        }
    }
}

impl From<Layout> for Alignment {
    fn from(layout: Layout) -> (r: Alignment) {
        layout.alignment()
    }
}

impl vstd::std_specs::convert::FromSpecImpl<Layout> for Alignment {
    open spec fn obeys_from_spec() -> bool {
        true
    }

    open spec fn from_spec(layout: Layout) -> Alignment {
        layout.spec_alignment()
    }
}

} // verus!
