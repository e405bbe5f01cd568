//! Laws of the engine: what holds of every registry, session and terminal,
//! proved from the definitions the operations are specified with.
use vstd::prelude::*;
use vstd::arithmetic::div_mod::{lemma_fundamental_div_mod, lemma_multiply_divide_lt};
use crate::emulator::{
    cursor_of, fed, screen_cells, RawColor, MAX_GRID_COLS, MIN_GRID_COLS, MIN_GRID_ROWS,
};
use crate::events::EventView;
use crate::manager::{casualties, exits, survivors, ManagerView};
use crate::pty::HostView;
use crate::session::{ConfigView, SessionView};
use crate::terminal::{lemma_frame_of_grid, TerminalView, SCROLLBACK_ROWS};
use crate::types::{
    default_background, default_foreground, CellAttributes, CellView, CursorPosition, Size,
};

verus! {

/// How often `event` occurs in `events`.
pub open spec fn occurrences(events: Seq<EventView>, event: EventView) -> nat
    decreases events.len(),
{
    if events.len() == 0 {
        0
    } else if events.last() == event {
        occurrences(events.drop_last(), event) + 1
    } else {
        occurrences(events.drop_last(), event)
    }
}

/// The notification that the process of the session `id` has exited.
pub open spec fn exit_of(id: Seq<char>) -> EventView {
    EventView::ProcessExit { session_id: id, exit_code: None }
}

/// In a well-formed registry an identifier names one place.
pub proof fn lemma_place(m: ManagerView, id: Seq<char>, i: int)
    requires
        m.wf(),
        m.is_at(id, i),
    ensures
        m.has(id),
        m.place(id) == i,
        m.get(id) == m.sessions[i],
{
    let found = m.place(id);
    assert(m.is_at(id, found));
    if found < i {
        assert(m.sessions[found].id != m.sessions[i].id);
    } else if i < found {
        assert(m.sessions[i].id != m.sessions[found].id);
    }
}

/// A session that was just created is found under its identifier, with the
/// configured size (80 columns by 24 rows where none is configured) and a
/// live process; the sessions that were there before stay as they were.
pub proof fn law_created_session_is_live(
    m: ManagerView,
    id: Seq<char>,
    config: ConfigView,
    host: HostView,
    now: u64,
)
    requires
        m.wf(),
        !m.has(id),
        config.valid(),
    ensures
        m.created(id, config, host, now).has(id),
        m.created(id, config, host, now).get(id).info().size == config.size(),
        m.created(id, config, host, now).get(id).info().is_alive,
        m.created(id, config, host, now).get(id).info().id == id,
        forall|other: Seq<char>|
            m.has(other) ==> m.created(id, config, host, now).has(other) && m.created(
                id,
                config,
                host,
                now,
            ).get(other) == m.get(other),
{
    let after = m.created(id, config, host, now);
    let last = m.sessions.len() as int;
    assert(after.is_at(id, last));
    assert forall|i: int| after.is_at(id, i) implies i == last by {
        if i < last {
            assert(m.is_at(id, i));
        }
    }
    assert(after.place(id) == last);
    assert forall|other: Seq<char>| m.has(other) implies after.has(other) && after.get(other)
        == m.get(other) by {
        let at = m.place(other);
        assert(m.is_at(other, at));
        assert(after.is_at(other, at));
        let found = after.place(other);
        assert(after.is_at(other, found));
        if found == last {
            assert(other == id);
        } else {
            assert(m.is_at(other, found));
            lemma_place(m, other, found);
        }
    }
}

/// Replacing the session that goes by `id` with another of the same
/// identifier touches that session alone: it is found as replaced, and every
/// other session is found as it was.
pub proof fn law_update_touches_one_session(m: ManagerView, id: Seq<char>, session: SessionView)
    requires
        m.wf(),
        m.has(id),
        session.id == id,
    ensures
        m.with(id, session).has(id),
        m.with(id, session).get(id) == session,
        m.with(id, session).events == m.events,
        forall|other: Seq<char>|
            other != id ==> m.with(id, session).has(other) == m.has(other) && (m.has(other)
                ==> m.with(id, session).get(other) == m.get(other)),
{
    let at = m.place(id);
    assert(m.is_at(id, at));
    let after = m.with(id, session);
    assert(after.is_at(id, at));
    assert forall|i: int| after.is_at(id, i) implies i == at by {
        if i != at {
            assert(m.is_at(id, i));
            lemma_place(m, id, i);
        }
    }
    assert(after.place(id) == at);
    assert forall|other: Seq<char>| other != id implies after.has(other) == m.has(other) && (m.has(
        other,
    ) ==> after.get(other) == m.get(other)) by {
        if m.has(other) {
            let i = m.place(other);
            assert(m.is_at(other, i));
            assert(after.is_at(other, i));
            let j = after.place(other);
            assert(after.is_at(other, j));
            assert(m.is_at(other, j));
            lemma_place(m, other, j);
        }
        if after.has(other) {
            let j = after.place(other);
            assert(after.is_at(other, j));
            assert(m.is_at(other, j));
        }
    }
}

/// A session that was destroyed is gone from the registry; every other
/// session is found as it was.
pub proof fn law_destroyed_session_is_gone(m: ManagerView, id: Seq<char>)
    requires
        m.wf(),
        m.has(id),
    ensures
        !m.destroyed(id).has(id),
        m.destroyed(id).sessions.len() == m.sessions.len() - 1,
        forall|other: Seq<char>|
            other != id && m.has(other) ==> m.destroyed(id).has(other) && m.destroyed(id).get(other)
                == m.get(other),
{
    let at = m.place(id);
    assert(m.is_at(id, at));
    let after = m.destroyed(id);
    assert forall|i: int| 0 <= i < after.sessions.len() implies #[trigger] after.sessions[i] == (if i
        < at {
        m.sessions[i]
    } else {
        m.sessions[i + 1]
    }) by {}
    if after.has(id) {
        let i = after.place(id);
        assert(after.is_at(id, i));
        if i < at {
            assert(m.is_at(id, i));
            lemma_place(m, id, i);
        } else {
            assert(m.is_at(id, i + 1));
            lemma_place(m, id, i + 1);
        }
    }
    assert forall|i: int, j: int| 0 <= i < j < after.sessions.len() implies (
    #[trigger] after.sessions[i]).id != (#[trigger] after.sessions[j]).id by {
        let a = if i < at { i } else { i + 1 };
        let b = if j < at { j } else { j + 1 };
        assert(m.sessions[a].id != m.sessions[b].id);
    }
    assert forall|other: Seq<char>| other != id && m.has(other) implies after.has(other)
        && after.get(other) == m.get(other) by {
        let i = m.place(other);
        assert(m.is_at(other, i));
        let k = if i < at { i } else { i - 1 };
        assert(after.is_at(other, k));
        let j = after.place(other);
        assert(after.is_at(other, j));
        if j != k {
            if j < k {
                assert(after.sessions[j].id != after.sessions[k].id);
            } else {
                assert(after.sessions[k].id != after.sessions[j].id);
            }
        }
    }
}

/// A processing pass of a session for which no output waits and which was
/// not resized since its last pass yields nothing and changes nothing.
pub proof fn law_idle_pass_is_silent(s: SessionView)
    requires
        !s.has_output(),
        !s.terminal.resized,
    ensures
        s.update() is None,
        s.emitted() == Seq::<EventView>::empty(),
        s.stepped() == s,
{
}

/// Two processing passes in succession, with no output arriving between
/// them: where at most one chunk waited before the first pass, the second
/// pass yields no update, emits nothing and leaves the registry as the first
/// left it.
pub proof fn law_second_pass_is_silent(m: ManagerView, id: Seq<char>)
    requires
        m.wf(),
        m.has(id),
        m.get(id).pty.inbox.len() <= 1,
    ensures
        m.processed(id).has(id),
        m.processed(id).get(id).update() is None,
        m.processed(id).get(id).emitted() == Seq::<EventView>::empty(),
        m.processed(id).processed(id) == m.processed(id),
{
    let at = m.place(id);
    assert(m.is_at(id, at));
    let once = m.processed(id);
    assert(once.is_at(id, at));
    assert forall|i: int| once.is_at(id, i) implies i == at by {
        if i != at {
            assert(m.is_at(id, i));
            lemma_place(m, id, i);
        }
    }
    assert(once.place(id) == at);
    let s = once.get(id);
    assert(!s.passes());
    assert(once.processed(id).sessions =~= once.sessions);
    assert(once.processed(id).events =~= once.events);
}

/// The screen of a terminal has as many rows and columns as its size says,
/// and the cursor lies on it.
pub proof fn law_screen_fits_size(t: TerminalView)
    requires
        t.size.valid(),
    ensures
        t.screen().wf(),
        t.screen().size == t.size,
{
    assert forall|r: int| 0 <= r < t.screen().cells.len() implies (#[trigger] t.screen().cells[r]).len()
        == t.size.cols by {
        assert(t.screen().cells[r] == t.row(r));
    }
}

/// The screen shows what the emulator reports. On a terminal whose grid is
/// the emulator's own, the cell at a place carries the text of the
/// emulator's cell there and its attributes, with its colours resolved to
/// RGB; a cell for which the emulator names no colour and no attribute is
/// white on black, without attributes. The cursor is where the emulator has
/// it, once that is on the grid.
pub proof fn law_screen_shows_the_emulators_cells(t: TerminalView, row: int, col: int)
    requires
        t.size.rows >= MIN_GRID_ROWS,
        MIN_GRID_COLS <= t.size.cols <= MAX_GRID_COLS,
        0 <= row < t.size.rows,
        0 <= col < t.size.cols,
    ensures
        t.screen().cells[row][col] == CellView::of(
            screen_cells(t.emulator)[(row as u16, col as u16)],
        ),
        t.screen().cells[row][col].text == screen_cells(t.emulator)[(
            row as u16,
            col as u16,
        )].text,
        ({
            let cell = screen_cells(t.emulator)[(row as u16, col as u16)];
            cell.fg == RawColor::Default && cell.bg
                == RawColor::Default && !cell.bold && !cell.italic
                && !cell.underline && !cell.inverse ==> t.screen().cells[row][col].fg
                == default_foreground() && t.screen().cells[row][col].bg
                == default_background() && t.screen().cells[row][col].attrs
                == CellAttributes::plain()
        }),
        cursor_of(t.emulator).0 < t.size.rows && cursor_of(
            t.emulator,
        ).1 < t.size.cols ==> t.screen().cursor.position == (CursorPosition {
            row: cursor_of(t.emulator).0,
            col: cursor_of(t.emulator).1,
        }),
{
    assert(t.screen().cells[row] == t.row(row));
    assert(t.row(row)[col] == t.cell(row, col));
}

/// Every change of a full frame lies on the grid.
pub proof fn law_frame_fits_size(t: TerminalView, i: int)
    requires
        t.size.valid(),
        0 <= i < t.frame().len(),
    ensures
        t.frame()[i].row < t.size.rows,
        t.frame()[i].col < t.size.cols,
        t.frame()[i].row * t.size.cols + t.frame()[i].col == i,
{
    let cols = t.size.cols as int;
    let rows = t.size.rows as int;
    assert(i < rows * cols);
    assert(cols * rows == rows * cols) by (nonlinear_arith);
    lemma_multiply_divide_lt(i, cols, rows);
    lemma_fundamental_div_mod(i, cols);
    assert(0 <= i / cols) by (nonlinear_arith)
        requires
            0 <= i,
            0 < cols,
    ;
    assert(cols * (i / cols) == (i / cols) * cols) by (nonlinear_arith);
}

/// The pass that follows a resize yields an update, whether output waits
/// or not: the full frame of the new grid, one change for each cell, with
/// the cursor on the grid.
pub proof fn law_refresh_after_resize(s: SessionView, cols: u16, rows: u16)
    requires
        cols >= 1,
        rows >= 1,
    ensures
        s.resized(cols, rows).update() is Some,
        s.resized(cols, rows).update().unwrap().changes == s.resized(
            cols,
            rows,
        ).stepped().terminal.frame(),
        s.resized(cols, rows).update().unwrap().changes.len() == rows * cols,
        s.resized(cols, rows).update().unwrap().cursor.position.within(Size { cols, rows }),
        s.resized(cols, rows).update().unwrap().session_id == s.id,
        !s.resized(cols, rows).stepped().terminal.resized,
{
    let r = s.resized(cols, rows);
    let next = r.terminal.processed(r.next_chunk());
    lemma_frame_of_grid(
        next,
        r.terminal.showing(fed(r.terminal.emulator, r.next_chunk())),
    );
    assert(rows * cols >= 1) by (nonlinear_arith)
        requires
            rows >= 1,
            cols >= 1,
    ;
    assert(r.terminal.changes(r.next_chunk()) == next.frame());
    assert(next.frame().len() == rows * cols);
}

/// After a resize the session has the new size: its screen has the new
/// dimensions and the cursor lies on it. The next processing pass, whether
/// output waits or not, yields an update: the full frame of the new grid,
/// one change for each of its cells, every one on the grid, with the cursor
/// on the grid. After that pass the screen still has the new size.
pub proof fn law_resize_round_trip(m: ManagerView, id: Seq<char>, cols: u16, rows: u16)
    requires
        m.wf(),
        m.has(id),
        cols >= 1,
        rows >= 1,
    ensures
        m.resized(id, cols, rows).has(id),
        m.resized(id, cols, rows).get(id).terminal.screen().size == (Size { cols, rows }),
        m.resized(id, cols, rows).get(id).terminal.screen().wf(),
        m.resized(id, cols, rows).get(id).info().size == (Size { cols, rows }),
        m.resized(id, cols, rows).get(id).stepped().terminal.screen().size == (Size { cols, rows }),
        m.resized(id, cols, rows).get(id).stepped().terminal.screen().wf(),
        m.resized(id, cols, rows).get(id).update() is Some,
        m.resized(id, cols, rows).get(id).update().unwrap().changes.len() == rows * cols,
        m.resized(id, cols, rows).get(id).update().unwrap().changes == m.resized(
            id,
            cols,
            rows,
        ).get(id).stepped().terminal.frame(),
        m.resized(id, cols, rows).get(id).update().unwrap().cursor.position.within(
            Size { cols, rows },
        ),
        forall|i: int|
            0 <= i < rows * cols ==> (#[trigger] m.resized(id, cols, rows).get(
                id,
            ).update().unwrap().changes[i]).row < rows && m.resized(id, cols, rows).get(
                id,
            ).update().unwrap().changes[i].col < cols,
{
    let at = m.place(id);
    assert(m.is_at(id, at));
    let after = m.resized(id, cols, rows);
    assert(after.is_at(id, at));
    assert forall|i: int| after.is_at(id, i) implies i == at by {
        if i != at {
            assert(m.is_at(id, i));
            lemma_place(m, id, i);
        }
    }
    assert(after.place(id) == at);
    let s = after.get(id);
    assert(s == m.get(id).resized(cols, rows));
    law_screen_fits_size(s.terminal);
    law_screen_fits_size(s.stepped().terminal);
    law_refresh_after_resize(m.get(id), cols, rows);
    let next = s.stepped().terminal;
    assert forall|i: int| 0 <= i < rows * cols implies (#[trigger] s.update().unwrap().changes[i]).row
        < rows && s.update().unwrap().changes[i].col < cols by {
        law_frame_fits_size(next, i);
    }
}

/// A well-formed terminal keeps at most `SCROLLBACK_ROWS` rows of history,
/// however much output it has processed.
pub proof fn law_history_is_bounded(t: TerminalView)
    requires
        t.wf(),
    ensures
        t.screen().scrollback_len <= SCROLLBACK_ROWS,
{
}

/// The survivors of a clean-up are sessions of the registry.
proof fn lemma_survivor_was_there(sessions: Seq<SessionView>, k: int)
    requires
        0 <= k < survivors(sessions).len(),
    ensures
        survivors(sessions)[k].pty.alive,
        exists|i: int| 0 <= i < sessions.len() && sessions[i] == #[trigger] survivors(sessions)[k],
    decreases sessions.len(),
{
    if sessions.len() > 0 {
        let rest = sessions.drop_last();
        if sessions.last().pty.alive && k == survivors(rest).len() {
            assert(sessions[sessions.len() - 1] == survivors(sessions)[k]);
        } else {
            lemma_survivor_was_there(rest, k);
            let i = choose|i: int| 0 <= i < rest.len() && rest[i] == survivors(rest)[k];
            assert(sessions[i] == survivors(sessions)[k]);
        }
    }
}

/// A sequence of live sessions has no casualties and survives whole.
proof fn lemma_all_alive(sessions: Seq<SessionView>)
    requires
        forall|i: int| 0 <= i < sessions.len() ==> (#[trigger] sessions[i]).pty.alive,
    ensures
        survivors(sessions) == sessions,
        casualties(sessions) == Seq::<Seq<char>>::empty(),
    decreases sessions.len(),
{
    if sessions.len() > 0 {
        let rest = sessions.drop_last();
        assert forall|i: int| 0 <= i < rest.len() implies (#[trigger] rest[i]).pty.alive by {
            assert(rest[i] == sessions[i]);
        }
        lemma_all_alive(rest);
        assert(sessions.last() == sessions[sessions.len() - 1]);
        assert(survivors(sessions) =~= sessions);
    } else {
        assert(survivors(sessions) =~= sessions);
    }
}

/// The exits of the casualties name a session as often as it stands dead
/// in the sequence: not at all where no dead session goes by `id`.
proof fn lemma_exit_count(sessions: Seq<SessionView>, id: Seq<char>)
    requires
        forall|i: int, j: int|
            0 <= i < j < sessions.len() ==> (#[trigger] sessions[i]).id != (#[trigger] sessions[j]).id,
    ensures
        (exists|i: int| 0 <= i < sessions.len() && sessions[i].id == id && !(
        #[trigger] sessions[i]).pty.alive) ==> occurrences(exits(casualties(sessions)), exit_of(id))
            == 1,
        !(exists|i: int| 0 <= i < sessions.len() && sessions[i].id == id && !(
        #[trigger] sessions[i]).pty.alive) ==> occurrences(exits(casualties(sessions)), exit_of(id))
            == 0,
    decreases sessions.len(),
{
    let dead_here = exists|i: int|
        0 <= i < sessions.len() && sessions[i].id == id && !(#[trigger] sessions[i]).pty.alive;
    if sessions.len() == 0 {
        assert(exits(casualties(sessions)) =~= Seq::empty());
    } else {
        let rest = sessions.drop_last();
        let last = sessions.last();
        assert forall|i: int, j: int| 0 <= i < j < rest.len() implies (#[trigger] rest[i]).id != (
        #[trigger] rest[j]).id by {
            assert(rest[i] == sessions[i]);
            assert(rest[j] == sessions[j]);
        }
        lemma_exit_count(rest, id);
        let dead_before = exists|i: int|
            0 <= i < rest.len() && rest[i].id == id && !(#[trigger] rest[i]).pty.alive;
        if last.pty.alive {
            assert(casualties(sessions) == casualties(rest));
            if dead_here {
                let i = choose|i: int|
                    0 <= i < sessions.len() && sessions[i].id == id && !(
                    #[trigger] sessions[i]).pty.alive;
                assert(rest[i] == sessions[i]);
                assert(dead_before);
            }
            if dead_before {
                let i = choose|i: int|
                    0 <= i < rest.len() && rest[i].id == id && !(#[trigger] rest[i]).pty.alive;
                assert(sessions[i] == rest[i]);
                assert(dead_here);
            }
        } else {
            let before = exits(casualties(rest));
            let now = exits(casualties(sessions));
            assert(now =~= before.push(exit_of(last.id)));
            assert(now.drop_last() =~= before);
            assert(now.last() == exit_of(last.id));
            if last.id == id {
                assert(sessions[sessions.len() - 1] == last);
                assert(dead_here);
                if dead_before {
                    let i = choose|i: int|
                        0 <= i < rest.len() && rest[i].id == id && !(#[trigger] rest[i]).pty.alive;
                    assert(sessions[i] == rest[i]);
                    assert(sessions[i].id != sessions[sessions.len() - 1].id);
                }
            } else {
                assert(exit_of(last.id) != exit_of(id));
                if dead_here {
                    let i = choose|i: int|
                        0 <= i < sessions.len() && sessions[i].id == id && !(
                        #[trigger] sessions[i]).pty.alive;
                    assert(rest[i] == sessions[i]);
                    assert(dead_before);
                }
                if dead_before {
                    let i = choose|i: int|
                        0 <= i < rest.len() && rest[i].id == id && !(#[trigger] rest[i]).pty.alive;
                    assert(sessions[i] == rest[i]);
                    assert(dead_here);
                }
            }
        }
    }
}

/// A clean-up reclaims a session whose process has exited: the session is
/// gone from the registry and from its listing, exactly one process exit is
/// notified for it, and a second clean-up right after removes nothing and
/// notifies nothing.
pub proof fn law_dead_session_is_reclaimed_once(m: ManagerView, id: Seq<char>)
    requires
        m.wf(),
        m.has(id),
        !m.get(id).pty.alive,
    ensures
        !m.cleaned().has(id),
        forall|i: int| 0 <= i < m.cleaned().listing().len() ==> (#[trigger] m.cleaned().listing()[i]).id != id,
        m.cleaned().events == m.events + exits(casualties(m.sessions)),
        occurrences(exits(casualties(m.sessions)), exit_of(id)) == 1,
        m.cleaned().cleaned() == m.cleaned(),
{
    let after = m.cleaned();
    let at = m.place(id);
    assert(m.is_at(id, at));
    assert forall|k: int| 0 <= k < after.sessions.len() implies (#[trigger] after.sessions[k]).id
        != id && after.sessions[k].pty.alive by {
        lemma_survivor_was_there(m.sessions, k);
        let i = choose|i: int| 0 <= i < m.sessions.len() && m.sessions[i] == survivors(m.sessions)[k];
        if after.sessions[k].id == id {
            assert(m.is_at(id, i));
            lemma_place(m, id, i);
        }
    }
    assert(!after.has(id)) by {
        if after.has(id) {
            let k = after.place(id);
            assert(after.is_at(id, k));
            assert(after.sessions[k].id != id);
        }
    }
    assert forall|i: int| 0 <= i < after.listing().len() implies (#[trigger] after.listing()[i]).id
        != id by {
        assert(after.listing()[i] == after.sessions[i].info());
    }
    assert(m.sessions[at].id == id && !m.sessions[at].pty.alive);
    lemma_exit_count(m.sessions, id);
    lemma_all_alive(after.sessions);
    assert(exits(casualties(after.sessions)) =~= Seq::empty());
    assert(after.cleaned().events =~= after.events);
}

/// A clean-up leaves the live sessions alone: each of them is still found
/// under its identifier, as it was.
pub proof fn law_live_session_survives(m: ManagerView, id: Seq<char>)
    requires
        m.wf(),
        m.has(id),
        m.get(id).pty.alive,
    ensures
        m.cleaned().has(id),
        m.cleaned().get(id) == m.get(id),
{
    crate::manager::lemma_cleaned_is_well_formed(m);
    let at = m.place(id);
    assert(m.is_at(id, at));
    lemma_survivor_holds(m.sessions, at);
    let k = choose|k: int|
        0 <= k < survivors(m.sessions).len() && survivors(m.sessions)[k] == m.sessions[at];
    assert(m.cleaned().is_at(id, k));
    lemma_place(m.cleaned(), id, k);
}

/// A live session of a sequence stands among its survivors.
proof fn lemma_survivor_holds(sessions: Seq<SessionView>, i: int)
    requires
        0 <= i < sessions.len(),
        sessions[i].pty.alive,
    ensures
        exists|k: int|
            0 <= k < survivors(sessions).len() && #[trigger] survivors(sessions)[k] == sessions[i],
    decreases sessions.len(),
{
    let rest = sessions.drop_last();
    if i == sessions.len() - 1 {
        let k = survivors(rest).len() as int;
        assert(survivors(sessions)[k] == sessions[i]);
    } else {
        lemma_survivor_holds(rest, i);
        let k = choose|k: int| 0 <= k < survivors(rest).len() && survivors(rest)[k] == rest[i];
        assert(survivors(sessions)[k] == sessions[i]);
    }
}

} // verus!
