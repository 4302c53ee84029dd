//! The pane at the bottom of the chat screen: which of its parts is shown,
//! and where. The pane shows the composer, or a view in its place (the
//! status of a running task, or a dialog), under an optional ring of live
//! rows. The parts are kept by the caller, who tells the pane what they
//! answer and does to them what the pane decides.

use crate::textarea::Rect;
use vstd::prelude::*;

verus! {

/// Whether a request to cancel was taken up.
#[derive(Debug, Clone, Copy, PartialEq, Eq, Structural)]
pub enum CancellationEvent {
    Ignored,
    Handled,
}

/// What is to become of the view that stands in place of the composer.
#[derive(Debug, Clone, Copy, PartialEq, Eq, Structural)]
pub enum ViewUpdate {
    /// Nothing: what is shown stays.
    Unchanged,
    /// The view goes and the composer shows again.
    Removed,
    /// A fresh status view takes the place, with no text yet.
    Status,
    /// A fresh status view takes the place and says that the model is
    /// waited for.
    StatusWaitingForModel,
    /// A fresh status view takes the place and says what the caller was
    /// about to say.
    StatusWithText,
    /// A fresh approval dialog takes the place.
    ApprovalModal,
}

/// What a pane is made with.
#[derive(Debug, Clone, Copy, PartialEq, Eq, Structural)]
pub struct BottomPaneParams {
    pub has_input_focus: bool,
    pub enhanced_keys_supported: bool,
}

/// The state of the pane.
#[derive(Debug, Clone, Copy, PartialEq, Eq, Structural)]
pub struct BottomPane {
    /// Whether a view is shown in place of the composer.
    pub active_view: bool,
    pub has_input_focus: bool,
    pub is_task_running: bool,
    pub ctrl_c_quit_hint: bool,
    /// Whether a status line lies over the composer.
    pub live_status: bool,
    /// Whether a ring of live rows is shown above the rest.
    pub live_ring: bool,
    /// Whether the view shown is the status view of a running task.
    pub status_view_active: bool,
}

/// The rows left empty below the composer or the view.
pub const BOTTOM_PAD_LINES: u16 = 2;

/// The sum of two heights, or the greatest height where the sum is greater.
pub open spec fn saturating_sum(a: int, b: int) -> int {
    if a + b <= u16::MAX {
        a + b
    } else {
        u16::MAX as int
    }
}

/// Where the parts of the pane go in an area.
#[derive(Debug, Clone, Copy, PartialEq, Eq, Structural)]
pub struct PaneLayout {
    /// The rows of the live ring.
    pub live_ring: Option<Rect>,
    /// The rows of the status line that lies over the composer.
    pub live_status: Option<Rect>,
    /// The rows of the view or, where none is shown, of the composer.
    pub main: Option<Rect>,
}

/// The lesser of two heights.
pub open spec fn min_height(a: int, b: int) -> int {
    if a <= b {
        a
    } else {
        b
    }
}

/// The rows of an area from row `offset` on, `height` of them.
pub open spec fn rows_of(area: Rect, offset: int, height: int) -> Rect {
    Rect { x: area.x, y: (area.y + offset) as u16, width: area.width, height: height as u16 }
}

fn sat_add(a: u16, b: u16) -> (sum: u16)
    ensures
        sum == saturating_sum(a as int, b as int),
{
    if a <= u16::MAX - b {
        a + b
    } else {
        u16::MAX
    }
}

impl BottomPane {
    /// A pane that shows the composer and nothing else.
    pub fn new(params: BottomPaneParams) -> (pane: BottomPane)
        ensures
            pane == (BottomPane {
                active_view: false,
                has_input_focus: params.has_input_focus,
                is_task_running: false,
                ctrl_c_quit_hint: false,
                live_status: false,
                live_ring: false,
                status_view_active: false,
            }),
    {
        BottomPane {
            active_view: false,
            has_input_focus: params.has_input_focus,
            is_task_running: false,
            ctrl_c_quit_hint: false,
            live_status: false,
            live_ring: false,
            status_view_active: false,
        }
    }

    /// The rows between the live ring and the view: one where the ring is
    /// shown above the status view, else none.
    pub open spec fn spacer(&self) -> int {
        if self.live_ring && self.status_view_active {
            1
        } else {
            0
        }
    }

    /// The rows that the view or the composer asks for, the spacer above a
    /// view included.
    pub open spec fn main_height(&self, view_height: u16, composer_height: u16) -> int {
        if self.active_view {
            self.spacer() + view_height
        } else {
            composer_height as int
        }
    }

    /// The rows that the pane asks for, given what each of its parts asks
    /// for: those of the status line and of the ring where they are shown,
    /// those of the view or of the composer, and the padding below; no more
    /// than can be counted.
    pub open spec fn spec_desired_height(
        &self,
        live_status_height: u16,
        live_ring_height: u16,
        view_height: u16,
        composer_height: u16,
    ) -> int {
        let overlay = if self.live_status { live_status_height } else { 0 };
        let ring = if self.live_ring { live_ring_height } else { 0 };
        saturating_sum(
            saturating_sum(
                saturating_sum(overlay as int, ring as int),
                self.main_height(view_height, composer_height),
            ),
            BOTTOM_PAD_LINES as int,
        )
    }

    /// The rows that the pane asks for. The height of a view with its spacer
    /// has to be one that can be counted.
    pub fn desired_height(
        &self,
        live_status_height: u16,
        live_ring_height: u16,
        view_height: u16,
        composer_height: u16,
    ) -> (height: u16)
        requires
            self.main_height(view_height, composer_height) <= u16::MAX,
        ensures
            height == self.spec_desired_height(
                live_status_height,
                live_ring_height,
                view_height,
                composer_height,
            ),
    {
        let overlay_status_h: u16 = if self.live_status { live_status_height } else { 0 };
        let ring_h: u16 = if self.live_ring { live_ring_height } else { 0 };
        let view_height: u16 = if self.active_view {
            let spacer: u16 = if self.live_ring && self.status_view_active { 1 } else { 0 };
            spacer + view_height
        } else {
            composer_height
        };
        sat_add(sat_add(sat_add(overlay_status_h, ring_h), view_height), BOTTOM_PAD_LINES)
    }

    /// Where the cursor is shown: where the composer has it, and nowhere
    /// while a view stands in its place.
    pub fn cursor_pos(&self, composer_cursor: Option<(u16, u16)>) -> (pos: Option<(u16, u16)>)
        ensures
            pos == if self.active_view {
                None
            } else {
                composer_cursor
            },
    {
        if self.active_view {
            None
        } else {
            composer_cursor
        }
    }

    /// Whether a key goes to the view, not to the composer.
    pub fn key_goes_to_view(&self) -> (to_view: bool)
        ensures
            to_view == self.active_view,
    {
        self.active_view
    }

    /// What follows a key that went to the view. A view that is not done
    /// stays. One that is done goes, and while a task runs the status view
    /// comes back in its place. Without a view nothing follows.
    pub fn handle_key_event(&mut self, view_is_complete: bool) -> (update: ViewUpdate)
        ensures
            !old(self).active_view || !view_is_complete ==> update == ViewUpdate::Unchanged
                && *final(self) == *old(self),
            old(self).active_view && view_is_complete && old(self).is_task_running ==> update
                == ViewUpdate::StatusWaitingForModel && *final(self) == (BottomPane {
                status_view_active: true,
                ..*old(self)
            }),
            old(self).active_view && view_is_complete && !old(self).is_task_running ==> update
                == ViewUpdate::Removed && *final(self) == (BottomPane {
                active_view: false,
                ..*old(self)
            }),
    {
        if !self.active_view || !view_is_complete {
            ViewUpdate::Unchanged
        } else if self.is_task_running {
            self.status_view_active = true;
            ViewUpdate::StatusWaitingForModel
        } else {
            self.active_view = false;
            ViewUpdate::Removed
        }
    }

    /// What follows a request to cancel. Without a view it is ignored. Else
    /// the view has answered: if it took the request up, it stays unless it
    /// is done, the status view comes back in its place while a task runs,
    /// and the hint on how to quit is shown; if it did not, it stays.
    pub fn on_ctrl_c(&mut self, view_event: CancellationEvent, view_is_complete: bool) -> (result: (
        CancellationEvent,
        ViewUpdate,
    ))
        ensures
            !old(self).active_view ==> result == (CancellationEvent::Ignored, ViewUpdate::Unchanged)
                && *final(self) == *old(self),
            old(self).active_view && view_event == CancellationEvent::Ignored ==> result == (
                CancellationEvent::Ignored,
                ViewUpdate::Unchanged,
            ) && *final(self) == *old(self),
            old(self).active_view && view_event == CancellationEvent::Handled ==> {
                &&& result.0 == CancellationEvent::Handled
                &&& final(self).ctrl_c_quit_hint
                &&& if !view_is_complete {
                    result.1 == ViewUpdate::Unchanged && *final(self) == (BottomPane {
                        ctrl_c_quit_hint: true,
                        ..*old(self)
                    })
                } else if old(self).is_task_running {
                    result.1 == ViewUpdate::StatusWaitingForModel && *final(self) == (BottomPane {
                        ctrl_c_quit_hint: true,
                        status_view_active: true,
                        ..*old(self)
                    })
                } else {
                    result.1 == ViewUpdate::Removed && *final(self) == (BottomPane {
                        ctrl_c_quit_hint: true,
                        active_view: false,
                        ..*old(self)
                    })
                }
            },
    {
        if !self.active_view {
            return (CancellationEvent::Ignored, ViewUpdate::Unchanged);
        }
        match view_event {
            CancellationEvent::Handled => {
                let update = self.handle_key_event(view_is_complete);
                self.show_ctrl_c_quit_hint();
                (CancellationEvent::Handled, update)
            },
            CancellationEvent::Ignored => (CancellationEvent::Ignored, ViewUpdate::Unchanged),
        }
    }

    /// Whether pasted text goes to the composer: it does unless a view
    /// stands in its place.
    pub fn handle_paste(&self) -> (to_composer: bool)
        ensures
            to_composer == !self.active_view,
    {
        !self.active_view
    }

    /// What follows a new status text. Without a view a status view is made
    /// to show it. A view that is shown has been offered the text: if it did
    /// not take it, a dialog is in the way, and the status line over the
    /// composer goes.
    pub fn update_status_text(&mut self, view_took_text: bool) -> (update: ViewUpdate)
        ensures
            !old(self).active_view ==> update == ViewUpdate::StatusWithText && *final(self) == (
            BottomPane { active_view: true, status_view_active: true, ..*old(self) }),
            old(self).active_view && view_took_text ==> update == ViewUpdate::Unchanged && *final(self) == *old(self),
            old(self).active_view && !view_took_text ==> update == ViewUpdate::Unchanged && *final(self) == (BottomPane { live_status: false, ..*old(self) }),
    {
        if self.active_view {
            if !view_took_text {
                self.live_status = false;
            }
            ViewUpdate::Unchanged
        } else {
            self.active_view = true;
            self.status_view_active = true;
            ViewUpdate::StatusWithText
        }
    }

    /// Shows the hint on how to quit.
    pub fn show_ctrl_c_quit_hint(&mut self)
        ensures
            *final(self) == (BottomPane { ctrl_c_quit_hint: true, ..*old(self) }),
    {
        self.ctrl_c_quit_hint = true;
    }

    /// Takes the hint on how to quit away. Returns whether it was shown.
    pub fn clear_ctrl_c_quit_hint(&mut self) -> (was_shown: bool)
        ensures
            was_shown == old(self).ctrl_c_quit_hint,
            *final(self) == (BottomPane { ctrl_c_quit_hint: false, ..*old(self) }),
    {
        let was_shown = self.ctrl_c_quit_hint;
        self.ctrl_c_quit_hint = false;
        was_shown
    }

    /// Whether the hint on how to quit is shown.
    pub fn ctrl_c_quit_hint_visible(&self) -> (visible: bool)
        ensures
            visible == self.ctrl_c_quit_hint,
    {
        self.ctrl_c_quit_hint
    }

    /// What follows the start or the end of a task. At the start the status
    /// view takes the place of the composer, unless a view is there already.
    /// At the end the status line over the composer goes, and the view goes
    /// too if it says that it is to go when the task is done.
    pub fn set_task_running(&mut self, running: bool, view_hides_when_done: bool) -> (update:
        ViewUpdate)
        ensures
            final(self).is_task_running == running,
            running && !old(self).active_view ==> update == ViewUpdate::Status && *final(self) == (
            BottomPane {
                is_task_running: true,
                active_view: true,
                status_view_active: true,
                ..*old(self)
            }),
            running && old(self).active_view ==> update == ViewUpdate::Unchanged && *final(self)
                == (BottomPane { is_task_running: true, ..*old(self) }),
            !running && !old(self).active_view ==> update == ViewUpdate::Unchanged && *final(self)
                == (BottomPane { is_task_running: false, live_status: false, ..*old(self) }),
            !running && old(self).active_view && view_hides_when_done ==> update
                == ViewUpdate::Removed && *final(self) == (BottomPane {
                is_task_running: false,
                live_status: false,
                active_view: false,
                status_view_active: false,
                ..*old(self)
            }),
            !running && old(self).active_view && !view_hides_when_done ==> update
                == ViewUpdate::Unchanged && *final(self) == (BottomPane {
                is_task_running: false,
                live_status: false,
                status_view_active: false,
                ..*old(self)
            }),
    {
        self.is_task_running = running;
        if running {
            if !self.active_view {
                self.active_view = true;
                self.status_view_active = true;
                ViewUpdate::Status
            } else {
                ViewUpdate::Unchanged
            }
        } else {
            self.live_status = false;
            if self.active_view {
                self.status_view_active = false;
                if view_hides_when_done {
                    self.active_view = false;
                    ViewUpdate::Removed
                } else {
                    ViewUpdate::Unchanged
                }
            } else {
                ViewUpdate::Unchanged
            }
        }
    }

    /// Whether a task runs.
    pub fn is_task_running(&self) -> (running: bool)
        ensures
            running == self.is_task_running,
    {
        self.is_task_running
    }

    /// What follows a request for approval. A view that is shown has been
    /// offered the request: if it took it, nothing changes. Else a dialog
    /// for the request takes the place, and the status line over the
    /// composer goes.
    pub fn push_approval_request(&mut self, view_took_request: bool) -> (update: ViewUpdate)
        ensures
            old(self).active_view && view_took_request ==> update == ViewUpdate::Unchanged
                && *final(self) == *old(self),
            !(old(self).active_view && view_took_request) ==> update == ViewUpdate::ApprovalModal
                && *final(self) == (BottomPane {
                active_view: true,
                live_status: false,
                status_view_active: false,
                ..*old(self)
            }),
    {
        if self.active_view && view_took_request {
            return ViewUpdate::Unchanged;
        }
        self.active_view = true;
        self.live_status = false;
        self.status_view_active = false;
        ViewUpdate::ApprovalModal
    }

    /// Shows the live ring.
    pub fn set_live_ring_rows(&mut self)
        ensures
            *final(self) == (BottomPane { live_ring: true, ..*old(self) }),
    {
        self.live_ring = true;
    }

    /// Takes the live ring away.
    pub fn clear_live_ring(&mut self)
        ensures
            *final(self) == (BottomPane { live_ring: false, ..*old(self) }),
    {
        self.live_ring = false;
    }

    /// The rows that the live ring gets in an area: as many as it asks for
    /// and the area has.
    pub open spec fn ring_rows(&self, area: Rect, live_ring_height: u16) -> int {
        if self.live_ring {
            min_height(live_ring_height as int, area.height as int)
        } else {
            0
        }
    }

    /// The first row below the live ring and the spacer that follows it
    /// above a status view.
    pub open spec fn below_ring(&self, area: Rect, live_ring_height: u16) -> int {
        let ring = self.ring_rows(area, live_ring_height);
        if self.live_ring && self.status_view_active && ring < area.height {
            ring + 1
        } else {
            ring
        }
    }

    /// The rows that the status line over the composer gets: as many as it
    /// asks for and are left below the ring.
    pub open spec fn status_rows(&self, area: Rect, live_ring_height: u16, live_status_height: u16)
        -> int {
        if self.live_status {
            min_height(
                live_status_height as int,
                area.height - self.below_ring(area, live_ring_height),
            )
        } else {
            0
        }
    }

    /// Where the parts go in an area: the ring on top, a spacer below it
    /// where the status view follows, then the status line, then the view or
    /// the composer in what is left, but for up to two rows of padding at
    /// the bottom that never take its last row.
    pub open spec fn spec_layout(&self, area: Rect, live_ring_height: u16, live_status_height: u16)
        -> PaneLayout {
        let ring = self.ring_rows(area, live_ring_height);
        let status_top = self.below_ring(area, live_ring_height);
        let status = self.status_rows(area, live_ring_height, live_status_height);
        let main_top = status_top + status;
        let avail = area.height - main_top;
        let pad = min_height(BOTTOM_PAD_LINES as int, avail - 1);
        PaneLayout {
            live_ring: if ring > 0 {
                Some(rows_of(area, 0, ring))
            } else {
                None
            },
            live_status: if status > 0 {
                Some(rows_of(area, status_top, status))
            } else {
                None
            },
            main: if avail > 0 {
                Some(rows_of(area, main_top, avail - pad))
            } else {
                None
            },
        }
    }

    /// Lays the parts out in an area whose last row can be counted.
    pub fn layout(&self, area: Rect, live_ring_height: u16, live_status_height: u16) -> (placed:
        PaneLayout)
        requires
            area.y + area.height <= u16::MAX,
        ensures
            placed == self.spec_layout(area, live_ring_height, live_status_height),
    {
        let mut y_offset: u16 = 0;
        let mut ring_rect: Option<Rect> = None;
        if self.live_ring {
            let live_h: u16 = if live_ring_height <= area.height {
                live_ring_height
            } else {
                area.height
            };
            if live_h > 0 {
                ring_rect = Some(Rect { x: area.x, y: area.y, width: area.width, height: live_h });
                y_offset = live_h;
            }
        }
        if self.live_ring && self.status_view_active && y_offset < area.height {
            y_offset = y_offset + 1;
        }
        let mut status_rect: Option<Rect> = None;
        if self.live_status {
            let left: u16 = area.height - y_offset;
            let live_h: u16 = if live_status_height <= left { live_status_height } else { left };
            if live_h > 0 {
                status_rect = Some(
                    Rect { x: area.x, y: area.y + y_offset, width: area.width, height: live_h },
                );
                y_offset = y_offset + live_h;
            }
        }
        let mut main_rect: Option<Rect> = None;
        if y_offset < area.height {
            let avail: u16 = area.height - y_offset;
            let pad: u16 = if BOTTOM_PAD_LINES <= avail - 1 { BOTTOM_PAD_LINES } else { avail - 1 };
            main_rect = Some(
                Rect { x: area.x, y: area.y + y_offset, width: area.width, height: avail - pad },
            );
        }
        PaneLayout { live_ring: ring_rect, live_status: status_rect, main: main_rect }
    }
}

/// Whether `inner` lies within `outer`, row for row and column for column.
pub open spec fn within(inner: Rect, outer: Rect) -> bool {
    &&& inner.x == outer.x
    &&& inner.width == outer.width
    &&& outer.y <= inner.y
    &&& inner.y + inner.height <= outer.y + outer.height
}

/// The first row below a part, or `otherwise` where the part is not shown.
pub open spec fn bottom_of(part: Option<Rect>, otherwise: int) -> int {
    match part {
        Some(rect) => rect.y + rect.height,
        None => otherwise,
    }
}

/// The parts that are laid out lie within the area, one below the other in
/// the order ring, status line, view or composer, and none is empty. The
/// view or the composer gets a row wherever one is left.
pub proof fn lemma_layout_stacks(
    pane: BottomPane,
    area: Rect,
    live_ring_height: u16,
    live_status_height: u16,
)
    requires
        area.y + area.height <= u16::MAX,
    ensures
        ({
            let placed = pane.spec_layout(area, live_ring_height, live_status_height);
            let ring_bottom = bottom_of(placed.live_ring, area.y as int);
            let status_bottom = bottom_of(placed.live_status, ring_bottom);
            &&& placed.live_ring matches Some(r) ==> within(r, area) && r.height > 0 && r.y
                == area.y
            &&& placed.live_status matches Some(s) ==> within(s, area) && s.height > 0
                && ring_bottom <= s.y
            &&& placed.main matches Some(m) ==> within(m, area) && m.height > 0
                && status_bottom <= m.y
            &&& placed.main is Some <==> pane.below_ring(area, live_ring_height)
                + pane.status_rows(area, live_ring_height, live_status_height) < area.height
        }),
{
}

} // verus!
