use vstd::prelude::*;

verus! {

/// The pointer's grab state as the window reports it.
#[derive(Clone, Copy, Debug, PartialEq, Eq, Structural)]
pub struct CursorGrab {
    pub locked: bool,
    pub visible: bool,
}

impl CursorGrab {
    /// A locked pointer is hidden and a free one is shown.
    pub open spec fn well_formed(&self) -> bool {
        self.visible == !self.locked
    }

    /// The state in which a window starts: free and shown.
    pub fn released() -> (r: CursorGrab)
        ensures
            !r.locked,
            r.visible,
            r.well_formed(),
    {
        CursorGrab { locked: false, visible: true }
    }
}

/// The grab state after one toggle: both flags inverted.
pub open spec fn toggled(c: CursorGrab) -> CursorGrab {
    CursorGrab { locked: !c.locked, visible: !c.visible }
}

/// Inverts the pointer's lock and visibility. Returns whether the pointer
/// must now be moved to the middle of the window, which is when it has
/// just become visible.
pub fn toggle_grab_cursor(cursor: &mut CursorGrab) -> (recenter: bool)
    ensures
        *final(cursor) == toggled(*old(cursor)),
        recenter == final(cursor).visible,
{
    cursor.locked = !cursor.locked;
    cursor.visible = !cursor.visible;
    cursor.visible
}

/// Every root overlay's visibility, each inverted.
pub open spec fn flipped_all(menus: Seq<bool>) -> Seq<bool> {
    Seq::new(menus.len(), |i: int| !menus[i])
}

/// Inverts the visibility of every root overlay node.
pub fn toggle_pause_menu(menus: &mut Vec<bool>)
    ensures
        final(menus)@ == flipped_all(old(menus)@),
{
    let n = menus.len();
    let mut i: usize = 0;
    while i < n
        invariant
            n == old(menus)@.len(),
            menus@.len() == n,
            i <= n,
            forall|j: int| 0 <= j < i ==> menus@[j] == !old(menus)@[j],
            forall|j: int| i <= j < n ==> menus@[j] == old(menus)@[j],
        decreases n - i,
    {
        let v = menus[i];
        menus.set(i, !v);
        i = i + 1;
    }
    assert(menus@ =~= flipped_all(old(menus)@));
}

/// The pointer and overlay state after a frame, given whether the pause
/// key went down during it: one edge toggles both, no edge changes nothing.
pub open spec fn pause_step(key_edge: bool, cursor: CursorGrab, menus: Seq<bool>) -> (CursorGrab, Seq<bool>) {
    if key_edge {
        (toggled(cursor), flipped_all(menus))
    } else {
        (cursor, menus)
    }
}

/// Handles the pause key for one frame. On a key-down edge the pointer grab
/// and every overlay's visibility are toggled together; returns whether the
/// pointer must be recentred.
pub fn on_pause_key(key_edge: bool, cursor: &mut CursorGrab, menus: &mut Vec<bool>) -> (recenter: bool)
    ensures
        (*final(cursor), final(menus)@) == pause_step(key_edge, *old(cursor), old(menus)@),
        recenter == (key_edge && final(cursor).visible),
{
    if key_edge {
        let recenter = toggle_grab_cursor(cursor);
        toggle_pause_menu(menus);
        recenter
    } else {
        false
    }
}

/// Grabs the pointer once at startup, from the state the window starts in.
pub fn initial_grab_cursor(cursor: &mut CursorGrab) -> (recenter: bool)
    ensures
        *final(cursor) == toggled(*old(cursor)),
        recenter == final(cursor).visible,
        old(cursor).well_formed() && old(cursor).visible ==> final(cursor).locked && !final(cursor).visible,
{
    toggle_grab_cursor(cursor)
}

/// A toggle keeps a locked pointer hidden and a free pointer shown.
pub proof fn lemma_toggle_keeps_well_formed(c: CursorGrab)
    requires
        c.well_formed(),
    ensures
        toggled(c).well_formed(),
{
}

/// Two key-down edges in a row restore the pointer's lock and visibility and
/// every overlay's visibility to what they were.
pub proof fn lemma_pause_twice_restores(cursor: CursorGrab, menus: Seq<bool>)
    ensures
        ({
            let (c1, m1) = pause_step(true, cursor, menus);
            pause_step(true, c1, m1)
        }) == (cursor, menus),
{
    assert(flipped_all(flipped_all(menus)) =~= menus);
}

/// When every overlay is shown exactly while the pointer is shown, this stays
/// so after any frame: the two are toggled in lockstep.
pub proof fn lemma_overlay_follows_cursor(key_edge: bool, cursor: CursorGrab, menus: Seq<bool>)
    requires
        forall|i: int| 0 <= i < menus.len() ==> menus[i] == cursor.visible,
    ensures
        ({
            let (c1, m1) = pause_step(key_edge, cursor, menus);
            &&& m1.len() == menus.len()
            &&& forall|i: int| 0 <= i < m1.len() ==> m1[i] == c1.visible
        }),
{
}

} // verus!
