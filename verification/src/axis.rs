use vstd::prelude::*;

verus! {

/// The direction along which a flex lays out its children.
#[derive(Debug, Clone, Copy, PartialEq, Eq, Structural)]
pub enum Axis {
    Horizontal,
    Vertical,
}

impl Axis {
    /// Out of a horizontal and a vertical component, the one along this axis.
    pub open spec fn main_of<T>(self, horizontal: T, vertical: T) -> T {
        match self {
            Axis::Horizontal => horizontal,
            Axis::Vertical => vertical,
        }
    }

    /// Out of a horizontal and a vertical component, the one across this axis.
    pub open spec fn cross_of<T>(self, horizontal: T, vertical: T) -> T {
        match self {
            Axis::Horizontal => vertical,
            Axis::Vertical => horizontal,
        }
    }

    /// The pair `(horizontal, vertical)` after its component along this axis
    /// was set to `value`.
    pub open spec fn with_main<T>(self, horizontal: T, vertical: T, value: T) -> (T, T) {
        match self {
            Axis::Horizontal => (value, vertical),
            Axis::Vertical => (horizontal, value),
        }
    }

    /// The pair `(horizontal, vertical)` after its component across this axis
    /// was set to `value`.
    pub open spec fn with_cross<T>(self, horizontal: T, vertical: T, value: T) -> (T, T) {
        match self {
            Axis::Horizontal => (horizontal, value),
            Axis::Vertical => (value, vertical),
        }
    }

    /// The component along this axis.
    pub fn main<T>(self, horizontal: T, vertical: T) -> (r: T)
        ensures
            r == self.main_of(horizontal, vertical),
    {
        match self {
            Axis::Horizontal => horizontal,
            Axis::Vertical => vertical,
        }
    }

    /// The component across this axis.
    pub fn cross<T>(self, horizontal: T, vertical: T) -> (r: T)
        ensures
            r == self.cross_of(horizontal, vertical),
    {
        match self {
            Axis::Horizontal => vertical,
            Axis::Vertical => horizontal,
        }
    }

    /// A mutable reference to the component along this axis.
    pub fn main_mut<'a, T>(self, horizontal: &'a mut T, vertical: &'a mut T) -> (r: &'a mut T)
        ensures
            *r == self.main_of(*old(horizontal), *old(vertical)),
            (*final(horizontal), *final(vertical)) == self.with_main(
                *old(horizontal),
                *old(vertical),
                *final(r),
            ),
    {
        match self {
            Axis::Horizontal => horizontal,
            Axis::Vertical => vertical,
        }
    }

    /// A mutable reference to the component across this axis.
    pub fn cross_mut<'a, T>(self, horizontal: &'a mut T, vertical: &'a mut T) -> (r: &'a mut T)
        ensures
            *r == self.cross_of(*old(horizontal), *old(vertical)),
            (*final(horizontal), *final(vertical)) == self.with_cross(
                *old(horizontal),
                *old(vertical),
                *final(r),
            ),
    {
        match self {
            Axis::Horizontal => vertical,
            Axis::Vertical => horizontal,
        }
    }
}

/// Whether vertical children are stacked downwards or upwards.
#[derive(Debug, Clone, Copy, PartialEq, Eq, Structural)]
pub enum VerticalDirection {
    Up,
    Down,
}

/// The order in which horizontal children are read.
#[derive(Debug, Clone, Copy, PartialEq, Eq, Structural)]
pub enum TextDirection {
    Ltr,
    Rtl,
}

/// Reading back the component that was written along (or across) an axis
/// gives the written value, and the other component keeps its old value.
pub proof fn lemma_axis_read_after_write<T>(axis: Axis, horizontal: T, vertical: T, value: T)
    ensures
        ({
            let (h, v) = axis.with_main(horizontal, vertical, value);
            axis.main_of(h, v) == value && axis.cross_of(h, v) == axis.cross_of(horizontal, vertical)
        }),
        ({
            let (h, v) = axis.with_cross(horizontal, vertical, value);
            axis.cross_of(h, v) == value && axis.main_of(h, v) == axis.main_of(horizontal, vertical)
        }),
{
}

/// The components along and across an axis are the two components of the
/// pair, each taken once.
pub proof fn lemma_axis_main_cross_cover<T>(axis: Axis, horizontal: T, vertical: T)
    ensures
        (axis.main_of(horizontal, vertical), axis.cross_of(horizontal, vertical)) == (horizontal, vertical)
            || (axis.main_of(horizontal, vertical), axis.cross_of(horizontal, vertical)) == (vertical, horizontal),
        axis == Axis::Horizontal <==> axis.main_of(0int, 1int) == 0,
{
}

} // verus!
