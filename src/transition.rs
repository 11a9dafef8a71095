//! The welcome screen's hand-off animation: the welcome panel slides out, a
//! bar drops down from the top edge and rises again, and then play begins.
use vstd::prelude::*;

verus! {

/// How far the welcome panel slides before the bar starts to drop.
pub const SLIDE_END: u16 = 700;

/// How far the bar drops before it starts to rise again.
pub const DROP_END: u16 = 288;

/// Stage of the welcome animation.
///
/// `Sliding` holds the panel's offset (0 to `SLIDE_END`), `Dropping` the
/// bar's depth while it goes down (1 to `DROP_END - 1`), `Rising` its depth
/// while it goes up (2 to `DROP_END`).
#[derive(PartialEq, Eq, Structural, Clone, Copy, Debug)]
pub enum Transition {
    Idle,
    Sliding { offset: u16 },
    Dropping { depth: u16 },
    Rising { depth: u16 },
    Finished,
}

impl Transition {
    /// The counters stay in the ranges that each stage allows.
    pub open spec fn well_formed(self) -> bool {
        match self {
            Transition::Sliding { offset } => offset <= SLIDE_END,
            Transition::Dropping { depth } => 1 <= depth < DROP_END,
            Transition::Rising { depth } => 2 <= depth <= DROP_END,
            _ => true,
        }
    }

    /// The stage one frame later.
    pub open spec fn next_spec(self) -> Transition {
        match self {
            Transition::Idle => Transition::Idle,
            Transition::Sliding { offset } => if offset < SLIDE_END {
                Transition::Sliding { offset: (offset + 1) as u16 }
            } else {
                Transition::Dropping { depth: 1 }
            },
            Transition::Dropping { depth } => if depth + 1 == DROP_END {
                Transition::Rising { depth: DROP_END }
            } else {
                Transition::Dropping { depth: (depth + 1) as u16 }
            },
            Transition::Rising { depth } => if depth == 2 {
                Transition::Finished
            } else {
                Transition::Rising { depth: (depth - 1) as u16 }
            },
            Transition::Finished => Transition::Finished,
        }
    }

    /// This frame ends the animation: the bar is back up at depth 1.
    pub open spec fn completes(self) -> bool {
        self == (Transition::Rising { depth: 2 })
    }

    /// The panel's horizontal offset as drawn.
    pub open spec fn slide_spec(self) -> int {
        match self {
            Transition::Idle => 0,
            Transition::Sliding { offset } => offset as int,
            _ => SLIDE_END as int,
        }
    }

    /// The bar's depth as drawn.
    pub open spec fn depth_spec(self) -> int {
        match self {
            Transition::Idle | Transition::Sliding { .. } => 0,
            Transition::Dropping { depth } => depth as int,
            Transition::Rising { depth } => depth as int,
            Transition::Finished => 1,
        }
    }

    /// The stage after a left click: an idle animation starts sliding, any
    /// other stage goes on as it was.
    pub open spec fn started_spec(self) -> Transition {
        if self == Transition::Idle {
            Transition::Sliding { offset: 0 }
        } else {
            self
        }
    }

    /// The stage after `n` frames.
    pub open spec fn run(self, n: nat) -> Transition
        decreases n,
    {
        if n == 0 {
            self
        } else {
            self.run((n - 1) as nat).next_spec()
        }
    }

    /// Advances one frame; the flag tells whether this frame ends the
    /// animation.
    pub fn next(self) -> (r: (Transition, bool))
        requires
            self.well_formed(),
        ensures
            r.0 == self.next_spec(),
            r.0.well_formed(),
            r.1 == self.completes(),
    {
        match self {
            Transition::Idle => (Transition::Idle, false),
            Transition::Sliding { offset } => if offset < SLIDE_END {
                (Transition::Sliding { offset: offset + 1 }, false)
            } else {
                (Transition::Dropping { depth: 1 }, false)
            },
            Transition::Dropping { depth } => if depth + 1 == DROP_END {
                (Transition::Rising { depth: DROP_END }, false)
            } else {
                (Transition::Dropping { depth: depth + 1 }, false)
            },
            Transition::Rising { depth } => if depth == 2 {
                (Transition::Finished, true)
            } else {
                (Transition::Rising { depth: depth - 1 }, false)
            },
            Transition::Finished => (Transition::Finished, false),
        }
    }

    /// The stage after a left click.
    pub fn started(self) -> (r: Transition)
        ensures
            r == self.started_spec(),
            self.well_formed() ==> r.well_formed(),
    {
        match self {
            Transition::Idle => Transition::Sliding { offset: 0 },
            other => other,
        }
    }

    /// The welcome panel's horizontal offset, 0 to `SLIDE_END`.
    pub fn slide_offset(&self) -> (r: u16)
        ensures
            r as int == self.slide_spec(),
    {
        match *self {
            Transition::Idle => 0,
            Transition::Sliding { offset } => offset,
            _ => SLIDE_END,
        }
    }

    /// How far the bar hangs down from the top edge.
    pub fn drop_depth(&self) -> (r: u16)
        ensures
            r as int == self.depth_spec(),
    {
        match *self {
            Transition::Idle | Transition::Sliding { .. } => 0,
            Transition::Dropping { depth } => depth,
            Transition::Rising { depth } => depth,
            Transition::Finished => 1,
        }
    }
}

} // verus!
