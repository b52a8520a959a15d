use vstd::prelude::*;

use crate::document::Document;
use crate::viewport::{next_offset, Intent, Viewport};
use crate::wrap::{display_from, wrap_display, DisplayLine};

verus! {

/// The keys the pager reacts to; any other key is `Other` and ignored.
#[derive(Clone, Copy, PartialEq, Eq, Structural, Debug)]
pub enum KeyCode {
    Char(char),
    Down,
    Up,
    Home,
    End,
    PageUp,
    PageDown,
    Other,
}

/// The mouse events the pager reacts to; anything else is `Other` and
/// ignored.
#[derive(Clone, Copy, PartialEq, Eq, Structural, Debug)]
pub enum MouseKind {
    ScrollDown,
    ScrollUp,
    Other,
}

/// One external event handed to the controller: a key press, a mouse
/// event, a change of the terminal size, or anything else, which is
/// ignored.
#[derive(Clone, Copy, PartialEq, Eq, Structural, Debug)]
pub enum Event {
    Key(KeyCode),
    Mouse(MouseKind),
    Resize(u16, u16),
    Other,
}

/// The two states of the event loop.
#[derive(Clone, Copy, PartialEq, Eq, Structural, Debug)]
pub enum Status {
    Running,
    Terminated,
}

/// The navigation intent an event stands for, if any.
pub open spec fn intent_of(ev: Event) -> Option<Intent> {
    match ev {
        Event::Key(code) => match code {
            KeyCode::Down => Some(Intent::ScrollDown),
            KeyCode::Up => Some(Intent::ScrollUp),
            KeyCode::Home => Some(Intent::Home),
            KeyCode::End => Some(Intent::End),
            KeyCode::PageUp => Some(Intent::PageUp),
            KeyCode::PageDown => Some(Intent::PageDown),
            KeyCode::Char(_) => None,
            KeyCode::Other => None,
        },
        Event::Mouse(kind) => match kind {
            MouseKind::ScrollDown => Some(Intent::MouseScrollDown),
            MouseKind::ScrollUp => Some(Intent::MouseScrollUp),
            MouseKind::Other => None,
        },
        Event::Resize(_, _) => None,
        Event::Other => None,
    }
}

/// Whether an event is the quit key.
pub open spec fn is_quit(ev: Event) -> bool {
    ev matches Event::Key(KeyCode::Char(c)) && c == 'q'
}

/// The rows one frame shows: the display rows of the document from
/// `offset` on, truncated to the viewport height.
pub open spec fn frame_rows(doc: Seq<Seq<char>>, offset: int, width: usize, height: int) -> Seq<
    (Seq<char>, bool),
> {
    let all = display_from(doc, offset, width);
    if all.len() <= height {
        all
    } else {
        all.take(height)
    }
}

/// The controller: it owns the document, the viewport, the memo of the
/// frame last drawn, and the state of the event loop.
pub struct Controller {
    pub doc: Document,
    pub viewport: Viewport,
    pub last_drawn: Option<(usize, u16, u16)>,
    pub status: Status,
}

impl Controller {
    /// The part of the state a drawn frame depends on.
    pub open spec fn current_triple(self) -> (usize, u16, u16) {
        (self.viewport.offset, self.viewport.width, self.viewport.height)
    }

    /// A fresh controller: scrolled to the top, nothing drawn yet, the
    /// loop running.
    pub fn new(doc: Document, width: u16, height: u16) -> (c: Controller)
        ensures
            c.doc == doc,
            c.viewport == (Viewport { offset: 0, width, height }),
            c.last_drawn is None,
            c.status == Status::Running,
    {
        Controller {
            doc,
            viewport: Viewport::new(width, height),
            last_drawn: None,
            status: Status::Running,
        }
    }

    /// React to one external event: the quit key terminates the loop, a
    /// navigation event moves the offset as `next_offset` says, a resize
    /// replaces the dimensions and forgets the memo so that the next
    /// frame is drawn whatever the offset, and any other event changes
    /// nothing.
    pub fn handle_event(&mut self, ev: &Event)
        requires
            old(self).doc@.len() <= usize::MAX - 3,
        ensures
            final(self).doc == old(self).doc,
            final(self).status == (if is_quit(*ev) {
                Status::Terminated
            } else {
                old(self).status
            }),
            final(self).viewport.width == (match *ev {
                Event::Resize(w, _) => w,
                _ => old(self).viewport.width,
            }),
            final(self).viewport.height == (match *ev {
                Event::Resize(_, h) => h,
                _ => old(self).viewport.height,
            }),
            final(self).last_drawn == (match *ev {
                Event::Resize(_, _) => None::<(usize, u16, u16)>,
                _ => old(self).last_drawn,
            }),
            final(self).viewport.offset as int == (match intent_of(*ev) {
                Some(intent) => next_offset(
                    intent,
                    old(self).viewport.offset as int,
                    old(self).viewport.height as int,
                    old(self).doc@.len() as int,
                ),
                None => old(self).viewport.offset as int,
            }),
    {
        let total = self.doc.len();
        match ev {
            Event::Key(code) => match code {
                KeyCode::Char(c) => {
                    if *c == 'q' {
                        self.status = Status::Terminated;
                    }
                },
                KeyCode::Down => self.viewport.apply(Intent::ScrollDown, total),
                KeyCode::Up => self.viewport.apply(Intent::ScrollUp, total),
                KeyCode::Home => self.viewport.apply(Intent::Home, total),
                KeyCode::End => self.viewport.apply(Intent::End, total),
                KeyCode::PageUp => self.viewport.apply(Intent::PageUp, total),
                KeyCode::PageDown => self.viewport.apply(Intent::PageDown, total),
                KeyCode::Other => {},
            },
            Event::Mouse(kind) => match kind {
                MouseKind::ScrollDown => self.viewport.apply(Intent::MouseScrollDown, total),
                MouseKind::ScrollUp => self.viewport.apply(Intent::MouseScrollUp, total),
                MouseKind::Other => {},
            },
            Event::Resize(w, h) => {
                self.viewport.width = *w;
                self.viewport.height = *h;
                self.last_drawn = None;
            },
            Event::Other => {},
        }
    }

    /// Produce the rows of the next frame, or nothing. Nothing is drawn
    /// while the geometry is degenerate (a zero width or height), and
    /// nothing is drawn while the memo still matches the viewport; in
    /// both cases the state is left alone. Otherwise the rows from the
    /// offset on, truncated to the height, are returned and the memo is
    /// set to the triple just drawn.
    pub fn render_frame(&mut self) -> (r: Option<Vec<DisplayLine>>)
        ensures
            final(self).doc == old(self).doc,
            final(self).viewport == old(self).viewport,
            final(self).status == old(self).status,
            (old(self).viewport.width == 0 || old(self).viewport.height == 0) ==> (r is None
                && final(self).last_drawn == old(self).last_drawn),
            (old(self).viewport.width > 0 && old(self).viewport.height > 0 && old(self).last_drawn
                == Some(old(self).current_triple())) ==> (r is None && final(self).last_drawn
                == old(self).last_drawn),
            (old(self).viewport.width > 0 && old(self).viewport.height > 0 && old(self).last_drawn
                != Some(old(self).current_triple())) ==> {
                &&& final(self).last_drawn == Some(old(self).current_triple())
                &&& r matches Some(rows) && rows@.map_values(|d: DisplayLine| d.model())
                    == frame_rows(
                    old(self).doc@,
                    old(self).viewport.offset as int,
                    old(self).viewport.width as usize,
                    old(self).viewport.height as int,
                )
            },
    {
        let off = self.viewport.offset;
        let w = self.viewport.width;
        let h = self.viewport.height;
        if w == 0 || h == 0 {
            return None;
        }
        let same: bool = match self.last_drawn {
            Some((o2, w2, h2)) => o2 == off && w2 == w && h2 == h,
            None => false,
        };
        if same {
            return None;
        }
        let mut rows = wrap_display(&self.doc.lines, off, w as usize);
        let ghost all = rows@.map_values(|d: DisplayLine| d.model());
        if rows.len() > h as usize {
            rows.truncate(h as usize);
            proof {
                assert(rows@.map_values(|d: DisplayLine| d.model()) =~= all.take(h as int));
            }
        }
        self.last_drawn = Some((off, w, h));
        Some(rows)
    }
}

/// Redraw suppression: when the memo matches the frame on screen and an
/// event's intent does not move the offset, the memo still matches after
/// the event, so the next `render_frame` draws nothing. The first four
/// premises describe the state before the event; the last four are what
/// `handle_event` ensures of the state after it.
pub proof fn lemma_redraw_suppression(c: Controller, c2: Controller, ev: Event)
    requires
        c.last_drawn == Some(c.current_triple()),
        intent_of(ev) is Some,
        next_offset(
            intent_of(ev)->Some_0,
            c.viewport.offset as int,
            c.viewport.height as int,
            c.doc@.len() as int,
        ) == c.viewport.offset as int,
        c2.viewport.offset as int == next_offset(
            intent_of(ev)->Some_0,
            c.viewport.offset as int,
            c.viewport.height as int,
            c.doc@.len() as int,
        ),
        c2.viewport.width == c.viewport.width,
        c2.viewport.height == c.viewport.height,
        c2.last_drawn == c.last_drawn,
    ensures
        c2.last_drawn == Some(c2.current_triple()),
{
}

} // verus!
