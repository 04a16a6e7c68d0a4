//! Two insertions at the same time.
//!
//! A model of what the input lock is for: two insertions, each driven by
//! `insert_step`, share one lock and one stream of injected characters. The
//! operating system takes the characters of an injection one by one, and a
//! scheduler lets either insertion move at any time. Whatever the schedule,
//! the stream holds what the one insertion typed, followed by what the other
//! typed.

use crate::input::{insert_step, InsertAction, InsertEnd, InsertEvent, InsertState};
use vstd::prelude::*;

verus! {

/// One of the two insertions.
pub enum Caller {
    First,
    Second,
}

/// One insertion: where it stands, how many characters of its text the
/// operating system has taken, and how it ended.
pub struct Typist {
    pub state: InsertState,
    pub typed: nat,
    pub end: Option<InsertEnd>,
}

/// The two insertions, the lock and the stream that they share.
pub struct Desk {
    pub first: Typist,
    pub second: Typist,
    /// The insertion that holds the input lock.
    pub holder: Option<Caller>,
    /// The characters that the operating system has taken, in order.
    pub stream: Seq<char>,
}

/// One move of the scheduler: the insertion that moves, and whether the
/// operating system fails the call that this insertion is making.
pub struct Move {
    pub caller: Caller,
    pub fails: bool,
}

impl Desk {
    pub open spec fn typist(self, caller: Caller) -> Typist {
        match caller {
            Caller::First => self.first,
            Caller::Second => self.second,
        }
    }

    pub open spec fn with_typist(self, caller: Caller, typist: Typist) -> Desk {
        match caller {
            Caller::First => Desk { first: typist, ..self },
            Caller::Second => Desk { second: typist, ..self },
        }
    }

    pub open spec fn with_holder(self, holder: Option<Caller>) -> Desk {
        Desk { holder, ..self }
    }

    pub open spec fn with_stream(self, stream: Seq<char>) -> Desk {
        Desk { stream, ..self }
    }
}

/// The insertion that stands at `state`, has typed `typed` characters and
/// ended as `end` says.
pub open spec fn typist_at(state: InsertState, typed: nat, end: Option<InsertEnd>) -> Typist {
    Typist { state, typed, end }
}

/// An insertion that was not asked for yet.
pub open spec fn fresh() -> Typist {
    typist_at(InsertState::Idle, 0, None)
}

/// The insertion that types and has typed `typed` characters.
pub open spec fn typing_at(typed: nat) -> Typist {
    typist_at(InsertState::Typing, typed, None)
}

/// The insertion that ended with success after `typed` characters.
pub open spec fn inserted(typed: nat) -> Typist {
    typist_at(InsertState::Done, typed, Some(InsertEnd::Inserted))
}

/// The desk before either insertion was asked for.
pub open spec fn desk_at_start() -> Desk {
    Desk { first: fresh(), second: fresh(), holder: None, stream: Seq::empty() }
}

/// The insertion after the host reported `event` to it.
pub open spec fn told(typist: Typist, event: InsertEvent, text: Seq<char>) -> Typist {
    let (state, action) = insert_step(typist.state, event, text.len() == 0);
    Typist {
        state,
        typed: typist.typed,
        end: match action {
            InsertAction::Finish(end) => Some(end),
            _ => typist.end,
        },
    }
}

/// The desk after one move. An insertion that waits for the lock moves only
/// when the lock is free. An insertion that types hands the operating system
/// its next character, and is told of its success when none is left.
pub open spec fn desk_step(desk: Desk, first: Seq<char>, second: Seq<char>, m: Move) -> Desk {
    let text = match m.caller {
        Caller::First => first,
        Caller::Second => second,
    };
    let typist = desk.typist(m.caller);
    match typist.state {
        InsertState::Idle => desk.with_typist(m.caller, told(typist, InsertEvent::Requested, text)),
        InsertState::Connecting => desk.with_typist(
            m.caller,
            told(
                typist,
                if m.fails {
                    InsertEvent::Failed
                } else {
                    InsertEvent::Succeeded
                },
                text,
            ),
        ),
        InsertState::Locking => if desk.holder is None {
            Desk { holder: Some(m.caller), ..desk }.with_typist(
                m.caller,
                told(typist, InsertEvent::Succeeded, text),
            )
        } else {
            desk
        },
        InsertState::Typing => if m.fails {
            desk.with_typist(m.caller, told(typist, InsertEvent::Failed, text))
        } else if typist.typed < text.len() {
            Desk { stream: desk.stream.push(text[typist.typed as int]), ..desk }.with_typist(
                m.caller,
                Typist { typed: typist.typed + 1, ..typist },
            )
        } else {
            desk.with_typist(m.caller, told(typist, InsertEvent::Succeeded, text))
        },
        InsertState::Releasing | InsertState::Abandoning { .. } => Desk {
            holder: if desk.holder == Some(m.caller) {
                None
            } else {
                desk.holder
            },
            ..desk
        }.with_typist(m.caller, told(typist, InsertEvent::Succeeded, text)),
        InsertState::Settling => desk.with_typist(
            m.caller,
            told(typist, InsertEvent::Succeeded, text),
        ),
        InsertState::Done => desk,
    }
}

/// The desk after the moves of `schedule`, from `desk`.
pub open spec fn desk_after(desk: Desk, first: Seq<char>, second: Seq<char>, schedule: Seq<Move>) -> Desk
    decreases schedule.len(),
{
    if schedule.len() == 0 {
        desk
    } else {
        desk_step(
            desk_after(desk, first, second, schedule.drop_last()),
            first,
            second,
            schedule.last(),
        )
    }
}

/// The desk after the moves of `schedule`, from the start.
pub open spec fn desk_run(first: Seq<char>, second: Seq<char>, schedule: Seq<Move>) -> Desk {
    desk_after(desk_at_start(), first, second, schedule)
}

/// The insertion holds the lock: it types, or is giving the lock back.
pub open spec fn at_keyboard(state: InsertState) -> bool {
    state is Typing || state is Releasing || state is Abandoning
}

/// The insertion will type no more.
pub open spec fn typing_over(state: InsertState) -> bool {
    state is Releasing || state is Abandoning || state is Settling || state is Done
}

/// What holds of one insertion on every desk that a schedule leads to.
pub open spec fn typist_in_order(typist: Typist, text: Seq<char>) -> bool {
    &&& typist.typed <= text.len()
    &&& typist.typed > 0 ==> at_keyboard(typist.state) || typing_over(typist.state)
    &&& typist.state is Releasing || typist.state is Settling ==> typist.typed == text.len()
    &&& typist.end == Some(InsertEnd::Inserted) ==> typist.typed == text.len()
    &&& typist.end is Some ==> typist.state is Done
}

/// What holds of every desk that a schedule leads to.
pub open spec fn desk_in_order(desk: Desk, first: Seq<char>, second: Seq<char>) -> bool {
    let a = first.take(desk.first.typed as int);
    let b = second.take(desk.second.typed as int);
    &&& typist_in_order(desk.first, first)
    &&& typist_in_order(desk.second, second)
    &&& at_keyboard(desk.first.state) <==> desk.holder == Some(Caller::First)
    &&& at_keyboard(desk.second.state) <==> desk.holder == Some(Caller::Second)
    &&& {
        ||| desk.stream == a + b && (desk.second.typed > 0 ==> typing_over(desk.first.state))
        ||| desk.stream == b + a && (desk.first.typed > 0 ==> typing_over(desk.second.state))
    }
}

proof fn lemma_step_keeps_order(desk: Desk, first: Seq<char>, second: Seq<char>, m: Move)
    requires
        desk_in_order(desk, first, second),
    ensures
        desk_in_order(desk_step(desk, first, second, m), first, second),
{
    let next = desk_step(desk, first, second, m);
    let a = first.take(desk.first.typed as int);
    let b = second.take(desk.second.typed as int);
    let empty = Seq::<char>::empty();
    assert(a + empty =~= a && empty + a =~= a);
    assert(b + empty =~= b && empty + b =~= b);
    if desk.first.typed == 0 {
        assert(a =~= empty);
    }
    if desk.second.typed == 0 {
        assert(b =~= empty);
    }
    match m.caller {
        Caller::First => {
            if desk.first.state is Typing && !m.fails && desk.first.typed < first.len() {
                let c = first[desk.first.typed as int];
                assert(first.take(desk.first.typed as int + 1) =~= a.push(c));
                assert((b + a).push(c) =~= b + a.push(c));
                if desk.second.typed == 0 {
                    assert((a + b).push(c) =~= a.push(c) + b);
                }
            }
        },
        Caller::Second => {
            if desk.second.state is Typing && !m.fails && desk.second.typed < second.len() {
                let c = second[desk.second.typed as int];
                assert(second.take(desk.second.typed as int + 1) =~= b.push(c));
                assert((a + b).push(c) =~= a + b.push(c));
                if desk.first.typed == 0 {
                    assert((b + a).push(c) =~= b.push(c) + a);
                }
            }
        },
    }
}

proof fn lemma_run_keeps_order(first: Seq<char>, second: Seq<char>, schedule: Seq<Move>)
    ensures
        desk_in_order(desk_run(first, second, schedule), first, second),
    decreases schedule.len(),
{
    if schedule.len() == 0 {
        assert(first.take(0) + second.take(0) =~= Seq::<char>::empty());
    } else {
        lemma_run_keeps_order(first, second, schedule.drop_last());
        lemma_step_keeps_order(
            desk_run(first, second, schedule.drop_last()),
            first,
            second,
            schedule.last(),
        );
    }
}

/// `count` moves of one insertion, none of which the operating system fails.
pub open spec fn moves_of(caller: Caller, count: nat) -> Seq<Move> {
    Seq::new(count, |i: int| Move { caller, fails: false })
}

/// The number of moves that an insertion of `text` takes from the request
/// to the end, where nothing fails and the lock is free.
pub open spec fn turn_length(text: Seq<char>) -> nat {
    if text.len() == 0 {
        1
    } else {
        text.len() + 6
    }
}

/// The text of one of the two insertions.
pub open spec fn text_of(caller: Caller, first: Seq<char>, second: Seq<char>) -> Seq<char> {
    match caller {
        Caller::First => first,
        Caller::Second => second,
    }
}

proof fn lemma_moves_in_two_parts(desk: Desk, first: Seq<char>, second: Seq<char>, a: Seq<Move>, b: Seq<Move>)
    ensures
        desk_after(desk, first, second, a + b) == desk_after(
            desk_after(desk, first, second, a),
            first,
            second,
            b,
        ),
    decreases b.len(),
{
    if b.len() == 0 {
        assert(a + b =~= a);
    } else {
        lemma_moves_in_two_parts(desk, first, second, a, b.drop_last());
        assert((a + b).drop_last() =~= a + b.drop_last());
        assert((a + b).last() == b.last());
    }
}

proof fn lemma_one_more_move(desk: Desk, first: Seq<char>, second: Seq<char>, caller: Caller, count: nat)
    ensures
        desk_after(desk, first, second, moves_of(caller, count + 1)) == desk_step(
            desk_after(desk, first, second, moves_of(caller, count)),
            first,
            second,
            Move { caller, fails: false },
        ),
{
    assert(moves_of(caller, count + 1).drop_last() =~= moves_of(caller, count));
}

/// An insertion that types and is let alone types on.
proof fn lemma_typing_goes_on(desk: Desk, first: Seq<char>, second: Seq<char>, caller: Caller, count: nat)
    requires
        desk.typist(caller).state is Typing,
        desk.typist(caller).typed + count <= text_of(caller, first, second).len(),
    ensures
        ({
            let typist = desk.typist(caller);
            let text = text_of(caller, first, second);
            let from = typist.typed as int;
            desk_after(desk, first, second, moves_of(caller, count)) == desk.with_stream(
                desk.stream + text.subrange(from, from + count),
            ).with_typist(caller, typist_at(typist.state, typist.typed + count, typist.end))
        }),
    decreases count,
{
    let typist = desk.typist(caller);
    let text = text_of(caller, first, second);
    let from = typist.typed as int;
    if count == 0 {
        assert(desk.stream + text.subrange(from, from) =~= desk.stream);
        assert(moves_of(caller, 0).len() == 0);
    } else {
        let less = (count - 1) as nat;
        lemma_typing_goes_on(desk, first, second, caller, less);
        lemma_one_more_move(desk, first, second, caller, less);
        assert((desk.stream + text.subrange(from, from + less)).push(text[from + less])
            =~= desk.stream + text.subrange(from, from + count));
    }
}

/// Three moves of one insertion are three steps.
proof fn lemma_three_moves(desk: Desk, first: Seq<char>, second: Seq<char>, caller: Caller)
    ensures
        ({
            let m = Move { caller, fails: false };
            desk_after(desk, first, second, moves_of(caller, 3)) == desk_step(
                desk_step(desk_step(desk, first, second, m), first, second, m),
                first,
                second,
                m,
            )
        }),
{
    assert(moves_of(caller, 0).len() == 0);
    lemma_one_more_move(desk, first, second, caller, 0);
    lemma_one_more_move(desk, first, second, caller, 1);
    lemma_one_more_move(desk, first, second, caller, 2);
}

/// An insertion of a text that is not empty, asked for while the lock is
/// free, types after three moves.
proof fn lemma_turn_begins(desk: Desk, first: Seq<char>, second: Seq<char>, caller: Caller)
    requires
        desk.typist(caller) == fresh(),
        desk.holder is None,
        text_of(caller, first, second).len() > 0,
    ensures
        desk_after(desk, first, second, moves_of(caller, 3)) == desk.with_holder(
            Some(caller),
        ).with_typist(caller, typing_at(0)),
{
    lemma_three_moves(desk, first, second, caller);
    let m = Move { caller, fails: false };
    let d1 = desk_step(desk, first, second, m);
    assert(d1 == desk.with_typist(caller, typist_at(InsertState::Connecting, 0, None)));
    let d2 = desk_step(d1, first, second, m);
    assert(d2 == desk.with_typist(caller, typist_at(InsertState::Locking, 0, None)));
}

/// An insertion that has typed its whole text ends with success after
/// three moves, and leaves the lock free.
proof fn lemma_turn_ends(desk: Desk, first: Seq<char>, second: Seq<char>, caller: Caller)
    requires
        desk.typist(caller) == typing_at(text_of(caller, first, second).len()),
        desk.holder == Some(caller),
    ensures
        desk_after(desk, first, second, moves_of(caller, 3)) == desk.with_holder(None).with_typist(
            caller,
            inserted(text_of(caller, first, second).len()),
        ),
{
    lemma_three_moves(desk, first, second, caller);
    let m = Move { caller, fails: false };
    let len = text_of(caller, first, second).len();
    let d1 = desk_step(desk, first, second, m);
    assert(d1 == desk.with_typist(caller, typist_at(InsertState::Releasing, len, None)));
    let d2 = desk_step(d1, first, second, m);
    assert(d2 == desk.with_holder(None).with_typist(
        caller,
        typist_at(InsertState::Settling, len, None),
    ));
}

/// An insertion that is asked for while the lock is free, and is then let
/// alone, ends with its whole text behind what the stream held.
proof fn lemma_turn_in_one_piece(desk: Desk, first: Seq<char>, second: Seq<char>, caller: Caller)
    requires
        desk.typist(caller) == fresh(),
        desk.holder is None,
    ensures
        desk_after(
            desk,
            first,
            second,
            moves_of(caller, turn_length(text_of(caller, first, second))),
        ) == desk.with_stream(desk.stream + text_of(caller, first, second)).with_typist(
            caller,
            inserted(text_of(caller, first, second).len()),
        ),
{
    let text = text_of(caller, first, second);
    if text.len() == 0 {
        lemma_one_more_move(desk, first, second, caller, 0);
        assert(moves_of(caller, 0).len() == 0);
        assert(desk.stream + text =~= desk.stream);
    } else {
        let three = moves_of(caller, 3);
        let typing = moves_of(caller, text.len());
        lemma_turn_begins(desk, first, second, caller);
        let d3 = desk_after(desk, first, second, three);
        lemma_typing_goes_on(d3, first, second, caller, text.len());
        let typed = desk_after(d3, first, second, typing);
        assert(text.subrange(0, text.len() as int) =~= text);
        assert(typed == desk.with_holder(Some(caller)).with_stream(desk.stream + text).with_typist(
            caller,
            typing_at(text.len()),
        ));
        lemma_turn_ends(typed, first, second, caller);
        lemma_moves_in_two_parts(desk, first, second, three, typing);
        lemma_moves_in_two_parts(desk, first, second, three + typing, three);
        assert((three + typing) + three =~= moves_of(caller, turn_length(text)));
    }
}

/// The schedule that lets the first insertion run to its end and then the
/// second.
pub open spec fn one_after_the_other(first: Seq<char>, second: Seq<char>) -> Seq<Move> {
    moves_of(Caller::First, turn_length(first)) + moves_of(Caller::Second, turn_length(second))
}

/// Both insertions can succeed: under the schedule that lets the first run
/// to its end and then the second, both end with success and the stream is
/// the first text followed by the second.
pub proof fn lemma_both_insertions_can_succeed(first: Seq<char>, second: Seq<char>)
    ensures
        ({
            let desk = desk_run(first, second, one_after_the_other(first, second));
            &&& desk.first.end == Some(InsertEnd::Inserted)
            &&& desk.second.end == Some(InsertEnd::Inserted)
            &&& desk.stream == first + second
        }),
{
    let start = desk_at_start();
    lemma_turn_in_one_piece(start, first, second, Caller::First);
    let middle = desk_after(start, first, second, moves_of(Caller::First, turn_length(first)));
    lemma_turn_in_one_piece(middle, first, second, Caller::Second);
    lemma_moves_in_two_parts(
        start,
        first,
        second,
        moves_of(Caller::First, turn_length(first)),
        moves_of(Caller::Second, turn_length(second)),
    );
    assert(Seq::<char>::empty() + first =~= first);
}

/// Two insertions at the same time never mix their characters. Under every
/// schedule the stream is what the one has typed so far followed by what the
/// other has typed so far, at most one of them holds the lock, and where
/// both have ended with success the stream is the whole text of the one
/// followed by the whole text of the other.
pub proof fn lemma_insertions_do_not_interleave(
    first: Seq<char>,
    second: Seq<char>,
    schedule: Seq<Move>,
)
    ensures
        ({
            let desk = desk_run(first, second, schedule);
            let a = first.take(desk.first.typed as int);
            let b = second.take(desk.second.typed as int);
            &&& desk.stream == a + b || desk.stream == b + a
            &&& !(at_keyboard(desk.first.state) && at_keyboard(desk.second.state))
            &&& desk.first.end == Some(InsertEnd::Inserted) && desk.second.end == Some(
                InsertEnd::Inserted,
            ) ==> desk.stream == first + second || desk.stream == second + first
        }),
{
    lemma_run_keeps_order(first, second, schedule);
    let desk = desk_run(first, second, schedule);
    if desk.first.end == Some(InsertEnd::Inserted) && desk.second.end == Some(InsertEnd::Inserted) {
        assert(first.take(first.len() as int) =~= first);
        assert(second.take(second.len() as int) =~= second);
    }
}

} // verus!
