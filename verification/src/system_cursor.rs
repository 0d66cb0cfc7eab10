//! The system's own cursors: which of them have been made invisible, and by what.

use vstd::prelude::*;

verus! {

pub const OCR_NORMAL: u32 = 32512;

pub const OCR_IBEAM: u32 = 32513;

pub const OCR_WAIT: u32 = 32514;

pub const OCR_CROSS: u32 = 32515;

pub const OCR_UP: u32 = 32516;

pub const OCR_SIZENWSE: u32 = 32642;

pub const OCR_SIZENESW: u32 = 32643;

pub const OCR_SIZEWE: u32 = 32644;

pub const OCR_SIZENS: u32 = 32645;

pub const OCR_SIZEALL: u32 = 32646;

pub const OCR_NO: u32 = 32648;

pub const OCR_HAND: u32 = 32649;

pub const OCR_APPSTARTING: u32 = 32650;

pub const OCR_HELP: u32 = 32651;

/// The number of standard cursors.
pub const CURSOR_COUNT: usize = 14;

/// The smallest size of the cursor that is shown where the overlay cannot be.
pub const MIN_FALLBACK_SIZE: i32 = 16;

/// Its largest size.
pub const MAX_FALLBACK_SIZE: i32 = 64;

/// The standard cursors, the normal one first.
pub open spec fn ids() -> Seq<u32> {
    seq![
        OCR_NORMAL,
        OCR_IBEAM,
        OCR_WAIT,
        OCR_CROSS,
        OCR_UP,
        OCR_SIZENWSE,
        OCR_SIZENESW,
        OCR_SIZEWE,
        OCR_SIZENS,
        OCR_SIZEALL,
        OCR_NO,
        OCR_HAND,
        OCR_APPSTARTING,
        OCR_HELP,
    ]
}

/// The standard cursors, the normal one first.
pub fn cursor_ids() -> (r: [u32; 14])
    ensures
        r@ == ids(),
{
    let r: [u32; 14] = [
        OCR_NORMAL,
        OCR_IBEAM,
        OCR_WAIT,
        OCR_CROSS,
        OCR_UP,
        OCR_SIZENWSE,
        OCR_SIZENESW,
        OCR_SIZEWE,
        OCR_SIZENS,
        OCR_SIZEALL,
        OCR_NO,
        OCR_HAND,
        OCR_APPSTARTING,
        OCR_HELP,
    ];
    assert(r@ =~= ids());
    r
}

/// What stands in for the system's cursors. A handle of zero stands for none.
#[derive(Debug)]
pub struct SystemCursors {
    /// For each standard cursor, the handle that is shared since it was replaced.
    pub blank_handles: Vec<usize>,
    /// Whether the normal cursor has been made invisible.
    pub installed: bool,
    /// Whether the normal cursor has been replaced by one that can be seen everywhere.
    pub fallback_installed: bool,
}

/// The state of `SystemCursors` as mathematical values.
#[verifier::ext_equal]
pub ghost struct CursorsState {
    pub handles: Seq<usize>,
    pub installed: bool,
    pub fallback_installed: bool,
}

impl View for SystemCursors {
    type V = CursorsState;

    open spec fn view(&self) -> CursorsState {
        CursorsState {
            handles: self.blank_handles@,
            installed: self.installed,
            fallback_installed: self.fallback_installed,
        }
    }
}

/// No handle for any cursor.
pub open spec fn no_handles() -> Seq<usize> {
    Seq::new(CURSOR_COUNT as nat, |i: int| 0usize)
}

impl CursorsState {
    /// There is a place for each standard cursor.
    pub open spec fn wf(self) -> bool {
        self.handles.len() == CURSOR_COUNT
    }

    /// The handle for a cursor; zero for one that is not a standard cursor.
    pub open spec fn handle(self, id: u32) -> usize {
        if ids().contains(id) {
            self.handles[ids().index_of(id)]
        } else {
            0
        }
    }

    /// The state after an attempt to replace each cursor. Where it succeeded there is a
    /// handle now; the whole counts as installed if it succeeded for the normal cursor.
    pub open spec fn after_install(self, results: Seq<Option<usize>>) -> CursorsState {
        CursorsState {
            handles: Seq::new(
                self.handles.len(),
                |i: int|
                    match results[i] {
                        Some(handle) => handle,
                        None => self.handles[i],
                    },
            ),
            installed: results[0] is Some,
            ..self
        }
    }

    /// The state after the system's cursors have been brought back.
    pub open spec fn after_restore(self) -> CursorsState {
        if self.installed || self.fallback_installed {
            CursorsState { handles: no_handles(), installed: false, fallback_installed: false }
        } else {
            self
        }
    }
}

impl SystemCursors {
    /// Nothing has been replaced.
    pub fn new() -> (r: SystemCursors)
        ensures
            r@.wf(),
            r@ == (CursorsState {
                handles: no_handles(),
                installed: false,
                fallback_installed: false,
            }),
    {
        let r: SystemCursors = SystemCursors {
            blank_handles: vec![0usize; CURSOR_COUNT],
            installed: false,
            fallback_installed: false,
        };
        assert(r@ =~= CursorsState {
            handles: no_handles(),
            installed: false,
            fallback_installed: false,
        });
        r
    }

    /// The handle that stands in for a cursor.
    pub fn get_blank_handle(&self, cursor_id: u32) -> (r: usize)
        requires
            self@.wf(),
        ensures
            r == self@.handle(cursor_id),
    {
        let known: [u32; 14] = cursor_ids();
        let mut i: usize = 0;
        while i < CURSOR_COUNT
            invariant
                self@.wf(),
                known@ == ids(),
                i <= CURSOR_COUNT,
                forall|j: int| 0 <= j < i ==> known@[j] != cursor_id,
            decreases CURSOR_COUNT - i,
        {
            if known[i] == cursor_id {
                proof {
                    lemma_ids_distinct();
                    assert(ids()[i as int] == cursor_id);
                    assert(ids().contains(cursor_id));
                    let k = ids().index_of(cursor_id);
                    assert(ids()[k] == cursor_id && 0 <= k < ids().len());
                    assert(k == i);
                }
                return self.blank_handles[i];
            }
            i = i + 1;
        }
        assert(!ids().contains(cursor_id));
        0
    }

    /// Tells whether the cursors have yet to be replaced.
    pub fn wants_install(&self) -> (r: bool)
        ensures
            r == !self@.installed,
    {
        !self.installed
    }

    /// Takes the results of replacing the cursors, in the order of their ids: the shared
    /// handle where it succeeded. Says whether the normal cursor is invisible now.
    pub fn install(&mut self, results: &[Option<usize>]) -> (r: bool)
        requires
            old(self)@.wf(),
            !old(self)@.installed,
            results@.len() == CURSOR_COUNT,
        ensures
            final(self)@.wf(),
            final(self)@ == old(self)@.after_install(results@),
            r == final(self)@.installed,
    {
        let mut i: usize = 0;
        while i < CURSOR_COUNT
            invariant
                results@.len() == CURSOR_COUNT,
                i <= CURSOR_COUNT,
                self.blank_handles@.len() == CURSOR_COUNT,
                self.installed == old(self).installed,
                self.fallback_installed == old(self).fallback_installed,
                forall|j: int|
                    0 <= j < i ==> #[trigger] self.blank_handles@[j] == old(self)@.after_install(
                        results@,
                    ).handles[j],
                forall|j: int|
                    i <= j < CURSOR_COUNT ==> #[trigger] self.blank_handles@[j]
                        == old(self).blank_handles@[j],
                old(self)@.wf(),
            decreases CURSOR_COUNT - i,
        {
            match results[i] {
                Some(handle) => {
                    self.blank_handles.set(i, handle);
                },
                None => {},
            }
            i = i + 1;
        }
        self.installed = results[0].is_some();
        assert(self@ =~= old(self)@.after_install(results@));
        self.installed
    }

    /// Takes the results of putting a visible cursor in the place of each standard one, in
    /// the order of their ids; nothing if there was no such cursor. Says whether the
    /// normal one was replaced.
    pub fn install_static_fallback(&mut self, results: Option<&[bool]>) -> (r: bool)
        requires
            results matches Some(list) ==> list@.len() == CURSOR_COUNT,
        ensures
            final(self)@ == (CursorsState {
                fallback_installed: (match results {
                    Some(list) => list@[0],
                    None => old(self)@.fallback_installed,
                }),
                ..old(self)@
            }),
            r == (results matches Some(list) && list@[0]),
    {
        match results {
            Some(list) => {
                self.fallback_installed = list[0];
                list[0]
            },
            None => false,
        }
    }

    /// Forgets every handle, and says whether there is anything to be brought back.
    pub fn restore(&mut self) -> (r: bool)
        requires
            old(self)@.wf(),
        ensures
            final(self)@.wf(),
            final(self)@ == old(self)@.after_restore(),
            r == (old(self)@.installed || old(self)@.fallback_installed),
    {
        if !self.installed && !self.fallback_installed {
            return false;
        }
        self.blank_handles = vec![0usize; CURSOR_COUNT];
        self.installed = false;
        self.fallback_installed = false;
        assert(self@ =~= old(self)@.after_restore());
        true
    }
}

/// The size at which the visible cursor is loaded, for the rounded width of the drawn one.
pub fn fallback_size(width: i32) -> (r: i32)
    ensures
        r == (if width < MIN_FALLBACK_SIZE {
            MIN_FALLBACK_SIZE
        } else if width > MAX_FALLBACK_SIZE {
            MAX_FALLBACK_SIZE
        } else {
            width
        }),
{
    if width < MIN_FALLBACK_SIZE {
        MIN_FALLBACK_SIZE
    } else if width > MAX_FALLBACK_SIZE {
        MAX_FALLBACK_SIZE
    } else {
        width
    }
}

/// The two masks of a cursor of 32 by 32 pixels that shows nothing: the first keeps every
/// pixel of the screen, the second inverts none.
pub fn blank_masks() -> (r: (Vec<u8>, Vec<u8>))
    ensures
        r.0@ == Seq::new(128, |i: int| 0xFFu8),
        r.1@ == Seq::new(128, |i: int| 0u8),
{
    let r: (Vec<u8>, Vec<u8>) = (vec![0xFFu8; 128], vec![0u8; 128]);
    assert(r.0@ =~= Seq::new(128, |i: int| 0xFFu8));
    assert(r.1@ =~= Seq::new(128, |i: int| 0u8));
    r
}

proof fn lemma_ids_distinct()
    ensures
        ids().len() == CURSOR_COUNT,
        forall|i: int, j: int| 0 <= i < j < ids().len() ==> ids()[i] != ids()[j],
{
}

/// A cursor that was replaced is told by the handle that stands in for it.
pub proof fn law_replaced_cursor_has_its_handle(
    state: CursorsState,
    results: Seq<Option<usize>>,
    i: int,
)
    requires
        state.wf(),
        results.len() == CURSOR_COUNT,
        0 <= i < CURSOR_COUNT,
        results[i] is Some,
    ensures
        Some(state.after_install(results).handle(ids()[i])) == results[i],
{
    lemma_ids_distinct();
    let id = ids()[i];
    assert(ids().contains(id));
    let k = ids().index_of(id);
    assert(ids()[k] == id && 0 <= k < ids().len());
    assert(k == i);
}

/// Once the cursors have been brought back, none of them has a handle any more, and there
/// is nothing left to bring back.
pub proof fn law_restoring_undoes_installing(
    state: CursorsState,
    results: Seq<Option<usize>>,
    id: u32,
)
    requires
        state.wf(),
        results.len() == CURSOR_COUNT,
        results[0] is Some,
    ensures
        state.after_install(results).after_restore().handle(id) == 0,
        !state.after_install(results).after_restore().installed,
        !state.after_install(results).after_restore().fallback_installed,
        state.after_install(results).after_restore().after_restore() == state.after_install(
            results,
        ).after_restore(),
{
    if ids().contains(id) {
        let k = ids().index_of(id);
        assert(0 <= k < ids().len());
    }
}

/// The standard cursors by their numbers, the normal one first; the hand is the twelfth.
pub proof fn law_numbers_of_the_cursors(id: u32)
    ensures
        ids().len() == 14,
        ids()[0] == 32512,
        ids()[11] == 32649,
        OCR_NORMAL == 32512,
        OCR_HAND == 32649,
        ids().contains(id) <==> 32512 <= id <= 32516 || 32642 <= id <= 32646 || 32648 <= id
            <= 32651,
        forall|i: int, j: int| 0 <= i < j < ids().len() ==> ids()[i] < ids()[j],
{
    let all = ids();
    assert(all[0] == 32512 && all[1] == 32513 && all[2] == 32514 && all[3] == 32515 && all[4]
        == 32516);
    assert(all[5] == 32642 && all[6] == 32643 && all[7] == 32644 && all[8] == 32645 && all[9]
        == 32646);
    assert(all[10] == 32648 && all[11] == 32649 && all[12] == 32650 && all[13] == 32651);
}

/// The handle of a standard cursor is the one at its place; any other cursor has none.
pub proof fn law_handles_stand_at_their_places(state: CursorsState, i: int, id: u32)
    requires
        state.wf(),
        0 <= i < 14,
    ensures
        state.handle(ids()[i]) == state.handles[i],
        !ids().contains(id) ==> state.handle(id) == 0,
{
    lemma_ids_distinct();
    let known = ids()[i];
    assert(ids().contains(known));
    let k = ids().index_of(known);
    assert(ids()[k] == known && 0 <= k < ids().len());
    assert(k == i);
}

/// Replacing the cursors takes the handle of each one that succeeded and leaves the others
/// as they were. It counts as done if and only if it succeeded for the normal cursor, which
/// is the first, whatever came of the others.
pub proof fn law_normal_cursor_decides(state: CursorsState, results: Seq<Option<usize>>, i: int)
    requires
        state.wf(),
        results.len() == 14,
        0 <= i < 14,
    ensures
        ({
            let after = state.after_install(results);
            &&& after.handles.len() == 14
            &&& results[i] matches Some(handle) ==> after.handles[i] == handle
            &&& results[i] is None ==> after.handles[i] == state.handles[i]
            &&& after.installed <==> results[0] is Some
            &&& after.fallback_installed == state.fallback_installed
        }),
{
}

/// Bringing the cursors back forgets every handle and both replacements, if there was one;
/// without one there is nothing to do, and nothing changes.
pub proof fn law_restoring_forgets_everything(state: CursorsState, i: int)
    requires
        state.wf(),
        0 <= i < 14,
    ensures
        !state.installed && !state.fallback_installed ==> state.after_restore() == state,
        !state.after_restore().installed,
        !state.after_restore().fallback_installed,
        state.installed || state.fallback_installed ==> state.after_restore().handles.len() == 14
            && state.after_restore().handles[i] == 0,
        no_handles().len() == 14,
        no_handles()[i] == 0,
        CURSOR_COUNT == 14,
{
}

/// What is known of the cursors is what stands in for them; there is a place for each of
/// the fourteen.
pub proof fn law_state_of_the_cursors(cursors: SystemCursors)
    ensures
        cursors@.handles == cursors.blank_handles@,
        cursors@.installed == cursors.installed,
        cursors@.fallback_installed == cursors.fallback_installed,
        cursors@.wf() <==> cursors.blank_handles@.len() == 14,
        MIN_FALLBACK_SIZE == 16,
        MAX_FALLBACK_SIZE == 64,
{
}

} // verus!
