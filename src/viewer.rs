//! The page-navigation state of a document viewer: which page is shown,
//! whether the window must be repainted, and whether it was asked to close.
use vstd::prelude::*;

verus! {

/// Rounds `i` up to a multiple of 16 (pixel sizes are kept aligned so).
pub fn round_to_16(i: i32) -> (r: i32)
    requires
        i <= i32::MAX - 15,
    ensures
        r % 16 == 0,
        i <= r < i + 16,
{
    let j: i32 = i + 15;
    let r: i32 = j & !0xfi32;
    assert(r <= j && j - r < 16 && (r & 0xfi32) == 0) by (bit_vector)
        requires
            r == j & !0xfi32,
    ;
    assert(r % 16 == 0) by (bit_vector)
        requires
            (r & 0xfi32) == 0,
    ;
    r
}

/// Rounds both coordinates of a pixel size up to multiples of 16.
pub fn round_v_to_16(x: i32, y: i32) -> (r: (i32, i32))
    requires
        x <= i32::MAX - 15,
        y <= i32::MAX - 15,
    ensures
        r.0 % 16 == 0,
        x <= r.0 < x + 16,
        r.1 % 16 == 0,
        y <= r.1 < y + 16,
{
    (round_to_16(x), round_to_16(y))
}

/// The page-navigation part of a viewer's state.
pub struct Context {
    page_nr: usize,
    num_pages: usize,
    redraw_requested: bool,
    closed: bool,
}

/// The page that `goto_page(page)` shows in a document of `num_pages` pages.
pub open spec fn clamp_page(page: int, num_pages: int) -> int {
    if page < num_pages - 1 { page } else { num_pages - 1 }
}

impl Context {
    /// The page shown, counted from 0.
    pub closed spec fn page(&self) -> usize {
        self.page_nr
    }

    /// The number of pages of the document.
    pub closed spec fn pages(&self) -> usize {
        self.num_pages
    }

    /// The number of pages of the document.
    pub fn num_pages(&self) -> (r: usize)
        ensures
            r == self.pages(),
    {
        self.num_pages
    }

    /// Sets the number of pages of the document; the page shown stays.
    pub fn set_num_pages(&mut self, n: usize)
        requires
            n >= 1,
        ensures
            final(self).pages() == n,
            final(self).page() == old(self).page(),
            final(self).redraw_pending() == old(self).redraw_pending(),
            final(self).close_requested() == old(self).close_requested(),
    {
        self.num_pages = n;
    }

    /// Whether the window needs a repaint.
    pub closed spec fn redraw_pending(&self) -> bool {
        self.redraw_requested
    }

    /// Whether the viewer was asked to close.
    pub closed spec fn close_requested(&self) -> bool {
        self.closed
    }

    /// A viewer on the first page of a one-page document, to be painted.
    pub fn new() -> (r: Self)
        ensures
            r.page() == 0,
            r.pages() == 1,
            r.redraw_pending(),
            !r.close_requested(),
    {
        Context { page_nr: 0, num_pages: 1, redraw_requested: true, closed: false }
    }

    /// Whether the window needs a repaint.
    pub fn redraw_requested(&self) -> (r: bool)
        ensures
            r == self.redraw_pending(),
    {
        self.redraw_requested
    }

    /// Whether the viewer was asked to close.
    pub fn is_closed(&self) -> (r: bool)
        ensures
            r == self.close_requested(),
    {
        self.closed
    }

    /// Asks for a repaint.
    pub fn request_redraw(&mut self)
        ensures
            final(self).redraw_pending(),
            final(self).page() == old(self).page(),
            final(self).pages() == old(self).pages(),
            final(self).close_requested() == old(self).close_requested(),
    {
        self.redraw_requested = true;
    }

    /// Shows `page`, or the last page where `page` lies beyond it; asks for
    /// a repaint only when the page shown changes.
    pub fn goto_page(&mut self, page: usize)
        requires
            old(self).pages() >= 1,
        ensures
            final(self).page() == clamp_page(page as int, old(self).pages() as int),
            final(self).pages() == old(self).pages(),
            final(self).redraw_pending() == (old(self).redraw_pending()
                || final(self).page() != old(self).page()),
            final(self).close_requested() == old(self).close_requested(),
    {
        let last = self.num_pages - 1;
        let page = if page < last { page } else { last };
        if page != self.page_nr {
            self.page_nr = page;
            self.request_redraw();
        }
    }

    /// Shows the next page, if there is one.
    pub fn next_page(&mut self)
        requires
            old(self).pages() >= 1,
        ensures
            final(self).page() == clamp_page(
                if old(self).page() == usize::MAX { usize::MAX as int } else { old(self).page() + 1 },
                old(self).pages() as int,
            ),
            final(self).pages() == old(self).pages(),
            final(self).redraw_pending() == (old(self).redraw_pending()
                || final(self).page() != old(self).page()),
            final(self).close_requested() == old(self).close_requested(),
    {
        self.goto_page(self.page_nr.saturating_add(1));
    }

    /// Shows the previous page, if there is one.
    pub fn prev_page(&mut self)
        requires
            old(self).pages() >= 1,
        ensures
            final(self).page() == clamp_page(
                if old(self).page() == 0 { 0 } else { old(self).page() - 1 },
                old(self).pages() as int,
            ),
            final(self).pages() == old(self).pages(),
            final(self).redraw_pending() == (old(self).redraw_pending()
                || final(self).page() != old(self).page()),
            final(self).close_requested() == old(self).close_requested(),
    {
        self.goto_page(self.page_nr.saturating_sub(1));
    }

    /// The page shown.
    pub fn page_nr(&self) -> (r: usize)
        ensures
            r == self.page(),
    {
        self.page_nr
    }

    /// Asks the viewer to close.
    pub fn close(&mut self)
        ensures
            final(self).close_requested(),
            final(self).page() == old(self).page(),
            final(self).pages() == old(self).pages(),
            final(self).redraw_pending() == old(self).redraw_pending(),
    {
        self.closed = true;
    }
}

} // verus!
