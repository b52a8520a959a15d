use vstd::prelude::*;

verus! {

/// A navigation request, produced from a key or mouse event.
#[derive(Clone, Copy, PartialEq, Eq, Structural, Debug)]
pub enum Intent {
    ScrollDown,
    ScrollUp,
    Home,
    End,
    PageUp,
    PageDown,
    MouseScrollDown,
    MouseScrollUp,
}

/// The visible window into the document: the index of the first logical
/// line shown, and the terminal dimensions in character cells.
#[derive(Clone, Copy, PartialEq, Eq, Structural, Debug)]
pub struct Viewport {
    pub offset: usize,
    pub width: u16,
    pub height: u16,
}

/// The offset that a navigation intent produces from the current offset,
/// given the viewport height and the number of logical lines.
///
/// Scrolling down (by line or by mouse wheel) is guarded so that it never
/// starts past the last full page; scrolling up never goes above the first
/// line. `End` jumps to the last full page, or to the top when the whole
/// document fits on one screen. `PageDown` is a no-op on such a short
/// document, so the page arithmetic never underflows.
pub open spec fn next_offset(intent: Intent, offset: int, height: int, total: int) -> int {
    match intent {
        Intent::ScrollDown => if offset + height < total {
            offset + 1
        } else {
            offset
        },
        Intent::ScrollUp => if offset > 0 {
            offset - 1
        } else {
            offset
        },
        Intent::Home => 0,
        Intent::End => if total > height {
            total - height
        } else {
            0
        },
        Intent::PageUp => if offset >= height {
            offset - height
        } else {
            0
        },
        Intent::PageDown => if total > height {
            if offset + height < total - height {
                offset + height
            } else {
                total - height
            }
        } else {
            offset
        },
        Intent::MouseScrollDown => if offset + height < total {
            offset + 3
        } else {
            offset
        },
        Intent::MouseScrollUp => if offset > 0 {
            if offset >= 3 {
                offset - 3
            } else {
                0
            }
        } else {
            offset
        },
    }
}

/// A valid offset never points before the first line; when the whole
/// document fits on the screen it is pinned to the top, and otherwise it
/// never points past the last full page.
pub open spec fn offset_in_bounds(offset: int, height: int, total: int) -> bool {
    &&& 0 <= offset
    &&& total <= height ==> offset == 0
    &&& total > height ==> offset <= total - height
}

impl Viewport {
    /// A viewport of the given dimensions, scrolled to the top.
    pub fn new(width: u16, height: u16) -> (v: Viewport)
        ensures
            v == (Viewport { offset: 0, width, height }),
    {
        Viewport { offset: 0, width, height }
    }

    /// Apply one navigation intent, moving the offset as `next_offset`
    /// says and leaving the dimensions alone.
    pub fn apply(&mut self, intent: Intent, total_lines: usize)
        requires
            total_lines <= usize::MAX - 3,
        ensures
            final(self).offset == next_offset(
                intent,
                old(self).offset as int,
                old(self).height as int,
                total_lines as int,
            ),
            final(self).width == old(self).width,
            final(self).height == old(self).height,
    {
        let height: usize = self.height as usize;
        match intent {
            Intent::ScrollDown => {
                if total_lines > height && self.offset < total_lines - height {
                    self.offset = self.offset + 1;
                }
            },
            Intent::ScrollUp => {
                if self.offset > 0 {
                    self.offset = self.offset - 1;
                }
            },
            Intent::Home => {
                self.offset = 0;
            },
            Intent::End => {
                if total_lines > height {
                    self.offset = total_lines - height;
                } else {
                    self.offset = 0;
                }
            },
            Intent::PageUp => {
                if self.offset >= height {
                    self.offset = self.offset - height;
                } else {
                    self.offset = 0;
                }
            },
            Intent::PageDown => {
                if total_lines > height {
                    let last_page: usize = total_lines - height;
                    if self.offset < last_page && last_page - self.offset > height {
                        self.offset = self.offset + height;
                    } else {
                        self.offset = last_page;
                    }
                }
            },
            Intent::MouseScrollDown => {
                if total_lines > height && self.offset < total_lines - height {
                    self.offset = self.offset + 3;
                }
            },
            Intent::MouseScrollUp => {
                if self.offset > 0 {
                    if self.offset >= 3 {
                        self.offset = self.offset - 3;
                    } else {
                        self.offset = 0;
                    }
                }
            },
        }
    }
}

/// Every navigation intent keeps the offset within bounds, with one
/// exception: scrolling down by mouse wheel moves three lines under a
/// one-line guard, so near the last page it can land up to two lines past
/// it. The second premise leaves exactly those starting states out.
pub proof fn lemma_next_offset_in_bounds(intent: Intent, offset: int, height: int, total: int)
    requires
        0 <= height,
        0 <= total,
        offset_in_bounds(offset, height, total),
        intent is MouseScrollDown ==> !(offset + height < total && offset + 3 > total - height),
    ensures
        offset_in_bounds(next_offset(intent, offset, height, total), height, total),
{
}

/// Every navigation intent leaves the offset nonnegative, with no
/// exception: even the mouse-wheel moves floor at the first line.
pub proof fn lemma_next_offset_nonnegative(intent: Intent, offset: int, height: int, total: int)
    requires
        0 <= offset,
        0 <= height,
        0 <= total,
    ensures
        0 <= next_offset(intent, offset, height, total),
{
}

/// The offset reached by a sequence of navigation intents, applied in
/// order.
pub open spec fn next_offset_seq(intents: Seq<Intent>, offset: int, height: int, total: int) -> int
    decreases intents.len(),
{
    if intents.len() == 0 {
        offset
    } else {
        next_offset_seq(
            intents.drop_first(),
            next_offset(intents[0], offset, height, total),
            height,
            total,
        )
    }
}

/// For every sequence of navigation intents without mouse-wheel
/// scroll-down, the offset is within bounds after each transition: after
/// every prefix of the sequence, not only at the end.
pub proof fn lemma_offset_in_bounds_for_sequences(
    intents: Seq<Intent>,
    offset: int,
    height: int,
    total: int,
)
    requires
        0 <= height,
        0 <= total,
        offset_in_bounds(offset, height, total),
        forall|i: int| 0 <= i < intents.len() ==> !(#[trigger] intents[i] is MouseScrollDown),
    ensures
        forall|k: int|
            0 <= k <= intents.len() ==> offset_in_bounds(
                next_offset_seq(#[trigger] intents.take(k), offset, height, total),
                height,
                total,
            ),
    decreases intents.len(),
{
    assert forall|k: int|
        0 <= k <= intents.len() implies offset_in_bounds(
        next_offset_seq(#[trigger] intents.take(k), offset, height, total),
        height,
        total,
    ) by {
        lemma_prefix_in_bounds(intents, k, offset, height, total);
    }
}

/// For every sequence of navigation intents whatever, the offset is
/// nonnegative after each transition.
pub proof fn lemma_offset_nonnegative_for_sequences(
    intents: Seq<Intent>,
    offset: int,
    height: int,
    total: int,
)
    requires
        0 <= offset,
        0 <= height,
        0 <= total,
    ensures
        forall|k: int|
            0 <= k <= intents.len() ==> 0 <= next_offset_seq(
                #[trigger] intents.take(k),
                offset,
                height,
                total,
            ),
{
    assert forall|k: int|
        0 <= k <= intents.len() implies 0 <= next_offset_seq(
        #[trigger] intents.take(k),
        offset,
        height,
        total,
    ) by {
        lemma_prefix_nonnegative(intents, k, offset, height, total);
    }
}

proof fn lemma_prefix_nonnegative(
    intents: Seq<Intent>,
    k: int,
    offset: int,
    height: int,
    total: int,
)
    requires
        0 <= offset,
        0 <= height,
        0 <= total,
        0 <= k <= intents.len(),
    ensures
        0 <= next_offset_seq(intents.take(k), offset, height, total),
    decreases k,
{
    if k > 0 {
        let first = intents[0];
        let next = next_offset(first, offset, height, total);
        lemma_next_offset_nonnegative(first, offset, height, total);
        let rest = intents.drop_first();
        lemma_prefix_nonnegative(rest, k - 1, next, height, total);
        assert(intents.take(k).drop_first() =~= rest.take(k - 1));
        assert(next_offset_seq(intents.take(k), offset, height, total) == next_offset_seq(
            rest.take(k - 1),
            next,
            height,
            total,
        ));
    } else {
        assert(intents.take(0) =~= Seq::<Intent>::empty());
    }
}

proof fn lemma_prefix_in_bounds(intents: Seq<Intent>, k: int, offset: int, height: int, total: int)
    requires
        0 <= height,
        0 <= total,
        offset_in_bounds(offset, height, total),
        0 <= k <= intents.len(),
        forall|i: int| 0 <= i < intents.len() ==> !(#[trigger] intents[i] is MouseScrollDown),
    ensures
        offset_in_bounds(next_offset_seq(intents.take(k), offset, height, total), height, total),
    decreases k,
{
    if k > 0 {
        let first = intents[0];
        let next = next_offset(first, offset, height, total);
        lemma_next_offset_in_bounds(first, offset, height, total);
        let rest = intents.drop_first();
        assert(forall|i: int|
            0 <= i < rest.len() ==> !(#[trigger] rest[i] is MouseScrollDown)) by {
            assert(forall|i: int|
                0 <= i < rest.len() ==> rest[i] == intents[i + 1]);
        }
        lemma_prefix_in_bounds(rest, k - 1, next, height, total);
        assert(intents.take(k).drop_first() =~= rest.take(k - 1));
        assert(next_offset_seq(intents.take(k), offset, height, total) == next_offset_seq(
            rest.take(k - 1),
            next,
            height,
            total,
        ));
    } else {
        assert(intents.take(0) =~= Seq::<Intent>::empty());
    }
}

} // verus!
